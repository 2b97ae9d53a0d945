//! The vault's storage rules: where on the flash the file system lives, which
//! file holds the password of a service, and how a password file is made and
//! read back.
use vstd::prelude::*;
use vstd::string::StringSliceAdditionalSpecFns;
use crate::aes::{
    CryptoError, encrypt_password, decrypt_password, opens_to, sealed_packet, packet_nonce, packet_tag,
    MIN_PACKET_LEN, MAX_PASSWORD_LEN,
};
use crate::bounded::{packet_bytes, packet_as_slice, path_bytes, path_new, path_extend, path_as_slice};

verus! {

/// Size in bytes of one erasable sector of the flash partition.
pub const BLOCK_SIZE: usize = 4096;

/// Number of sectors the file system spreads its writes over.
pub const BLOCK_COUNT: usize = 32;

/// Size in bytes of the whole partition.
pub const PARTITION_SIZE: usize = 131072;

/// Absolute flash address at which the file system partition begins.
pub const BASE_ADDRESS: u32 = 0x3C0000;

/// The longest service name, in bytes, whose file path fits in a path buffer.
pub const MAX_SERVICE_NAME_LEN: usize = 59;

/// The longest path, in bytes and without its terminating NUL, that littlefs accepts.
pub const LITTLEFS_PATH_MAX: usize = 255;

/// Why a raw flash access was refused.
#[derive(Debug, Clone, Copy, PartialEq, Eq, Structural)]
pub enum FlashError {
    /// The requested byte range reaches past the end of the partition.
    OutOfBounds,
}

/// The byte range `[off, off + len)` lies inside the partition.
pub open spec fn in_partition(off: int, len: int) -> bool {
    off + len <= BLOCK_SIZE * BLOCK_COUNT
}

/// Absolute flash address of a partition offset.
pub open spec fn absolute_address(off: int) -> int {
    BASE_ADDRESS + off
}

/// Checks a read or a write of `len` bytes at partition offset `off`, and gives
/// the absolute flash address at which it starts.
pub fn flash_access_address(off: usize, len: usize) -> (r: Result<u32, FlashError>)
    requires
        off + len <= usize::MAX,
    ensures
        r is Ok <==> in_partition(off as int, len as int),
        r matches Ok(addr) ==> addr == absolute_address(off as int),
        r matches Ok(addr) ==> BASE_ADDRESS <= addr && addr + len <= BASE_ADDRESS + PARTITION_SIZE,
        r matches Err(e) ==> e == FlashError::OutOfBounds,
{
    if off + len > BLOCK_SIZE * BLOCK_COUNT {
        return Err(FlashError::OutOfBounds);
    }
    Ok(BASE_ADDRESS + off as u32)
}

/// Checks an erase of `len` bytes at partition offset `off`, and gives the
/// absolute flash addresses at which it starts and ends.
pub fn flash_erase_range(off: usize, len: usize) -> (r: Result<(u32, u32), FlashError>)
    requires
        off + len <= usize::MAX,
    ensures
        r is Ok <==> in_partition(off as int, len as int),
        r matches Ok((from, to)) ==> from == absolute_address(off as int) && to == from + len,
        r matches Ok((from, to)) ==> BASE_ADDRESS <= from <= to <= BASE_ADDRESS + PARTITION_SIZE,
        r matches Err(e) ==> e == FlashError::OutOfBounds,
{
    if off + len > BLOCK_SIZE * BLOCK_COUNT {
        return Err(FlashError::OutOfBounds);
    }
    let from = BASE_ADDRESS + off as u32;
    let to = from + len as u32;
    Ok((from, to))
}

/// `littlefs2_core::PathError`, why littlefs refuses a path, made known to Verus
/// as an opaque type.
#[verifier::external_type_specification]
#[verifier::external_body]
pub struct ExPathError(littlefs2_core::PathError);

/// What littlefs accepts as a path given with its terminating NUL: ASCII bytes
/// with no NUL among them, at most 255 of them, and the NUL last.
pub open spec fn is_littlefs_path(bytes: Seq<u8>) -> bool {
    &&& bytes.len() >= 1
    &&& bytes.last() == 0u8
    &&& forall|i: int| 0 <= i < bytes.len() - 1 ==> #[trigger] bytes[i] != 0u8 && bytes[i] < 128u8
    &&& bytes.len() - 1 <= LITTLEFS_PATH_MAX
}

/// `littlefs2_core::Path::from_bytes_with_nul`: accepts exactly the byte
/// strings that `is_littlefs_path` describes. The accepted path itself is not
/// handed on.
#[verifier::external_body]
fn littlefs_path_from_bytes_with_nul(bytes: &[u8]) -> (r: Result<(), littlefs2_core::PathError>)
    ensures
        r is Ok <==> is_littlefs_path(bytes@),
{
    match littlefs2_core::Path::from_bytes_with_nul(bytes) {
        Ok(_) => Ok(()),
        Err(e) => Err(e),
    }
}

/// The bytes appended to a service name to name its file: `.bin` and a NUL.
pub open spec fn path_suffix() -> Seq<u8> {
    seq![46u8, 98u8, 105u8, 110u8, 0u8]
}

/// The file path, NUL included, under which a service's password is kept.
pub open spec fn service_path_bytes(name: Seq<u8>) -> Seq<u8> {
    name + path_suffix()
}

/// A service name that can name a file: ASCII, without NUL bytes.
pub open spec fn is_valid_service_name(name: Seq<u8>) -> bool {
    forall|i: int| 0 <= i < name.len() ==> #[trigger] name[i] != 0u8 && name[i] < 128u8
}

/// Builds the file path of a service, `<service_name>.bin` with a terminating
/// NUL, and checks that littlefs accepts it.
pub fn service_file_path(service_name: &str) -> (r: Option<heapless::Vec<u8, 64>>)
    requires
        service_name.spec_bytes().len() <= MAX_SERVICE_NAME_LEN,
    ensures
        r is Some <==> is_valid_service_name(service_name.spec_bytes()),
        r matches Some(p) ==> path_bytes(p) == service_path_bytes(service_name.spec_bytes()),
        r matches Some(p) ==> path_bytes(p).take(service_name.spec_bytes().len() as int)
            == service_name.spec_bytes(),
        r matches Some(p) ==> path_bytes(p).skip(service_name.spec_bytes().len() as int) == seq![
            46u8,
            98u8,
            105u8,
            110u8,
            0u8,
        ],
{
    let mut path = path_new();
    let _ = path_extend(&mut path, service_name.as_bytes());
    let suffix: [u8; 5] = [46u8, 98u8, 105u8, 110u8, 0u8];
    let _ = path_extend(&mut path, suffix.as_slice());
    let bytes = path_as_slice(&path);
    let checked = littlefs_path_from_bytes_with_nul(bytes);
    proof {
        let name = service_name.spec_bytes();
        let full = path_bytes(path);
        assert(suffix@ =~= path_suffix());
        assert(full =~= service_path_bytes(name));
        assert(forall|i: int| 0 <= i < name.len() ==> #[trigger] full[i] == name[i]);
        assert(full[name.len() as int + 0] == 46u8);
        assert(full[name.len() as int + 1] == 98u8);
        assert(full[name.len() as int + 2] == 105u8);
        assert(full[name.len() as int + 3] == 110u8);
        assert(full[name.len() as int + 4] == 0u8);
        if is_valid_service_name(name) {
            assert forall|i: int| 0 <= i < full.len() - 1 implies #[trigger] full[i] != 0u8 && full[i]
                < 128u8 by {
                if i < name.len() {
                    assert(full[i] == name[i]);
                }
            }
        }
        if is_littlefs_path(full) {
            assert forall|i: int| 0 <= i < name.len() implies #[trigger] name[i] != 0u8 && name[i]
                < 128u8 by {
                assert(full[i] == name[i]);
            }
        }
    }
    proof {
        let name = service_name.spec_bytes();
        assert(path_bytes(path).take(name.len() as int) =~= name);
        assert(path_bytes(path).skip(name.len() as int) =~= seq![46u8, 98u8, 105u8, 110u8, 0u8]);
    }
    match checked {
        Ok(()) => Some(path),
        Err(_) => None,
    }
}

/// A service's file path is its name, byte for byte, followed by `.bin` and a
/// NUL; so two services share a file only when their names are equal.
pub proof fn lemma_service_path_keeps_the_name(name: Seq<u8>, other: Seq<u8>)
    ensures
        service_path_bytes(name).len() == name.len() + 5,
        service_path_bytes(name).take(name.len() as int) == name,
        service_path_bytes(name).skip(name.len() as int) == seq![46u8, 98u8, 105u8, 110u8, 0u8],
        service_path_bytes(name) == service_path_bytes(other) ==> name == other,
{
    let p = service_path_bytes(name);
    assert(p.take(name.len() as int) =~= name);
    assert(p.skip(name.len() as int) =~= seq![46u8, 98u8, 105u8, 110u8, 0u8]);
    if p == service_path_bytes(other) {
        let q = service_path_bytes(other);
        assert(q.len() == other.len() + 5);
        assert(q.take(other.len() as int) =~= other);
    }
}

/// Why saving or loading a password file failed.
#[derive(Debug, Clone, Copy, PartialEq, Eq, Structural)]
pub enum StorageError {
    /// The password could not be encrypted.
    Encrypt,
    /// The service's file path was refused while saving.
    InvalidPath,
    /// The file could not be created.
    CreateFile,
    /// The packet could not be written to the file.
    Write,
    /// The file could not be synchronized to the flash.
    Sync,
    /// The service's file path was refused while loading.
    InvalidFilePath,
    /// The file could not be opened.
    OpenFile,
    /// The file could not be read.
    Read,
    /// The file is too short to hold a packet.
    InvalidFile,
    /// The packet in the file does not authenticate.
    Decrypt,
}

/// The text reported for each storage error.
pub open spec fn storage_error_text(e: StorageError) -> Seq<char> {
    match e {
        StorageError::Encrypt => "Error encrypting!"@,
        StorageError::InvalidPath => "Invalid Path!"@,
        StorageError::CreateFile => "Error creating File!"@,
        StorageError::Write => "Error writing!"@,
        StorageError::Sync => "Error synchronizing File!"@,
        StorageError::InvalidFilePath => "Invalid File Path!"@,
        StorageError::OpenFile => "Error opening File!"@,
        StorageError::Read => "Error reading from Flash!"@,
        StorageError::InvalidFile => "Error invalid File!"@,
        StorageError::Decrypt => "Error decrypting Password!"@,
    }
}

impl StorageError {
    /// The text reported for this error.
    pub fn message(&self) -> (m: &'static str)
        ensures
            m@ == storage_error_text(*self),
    {
        match self {
            StorageError::Encrypt => "Error encrypting!",
            StorageError::InvalidPath => "Invalid Path!",
            StorageError::CreateFile => "Error creating File!",
            StorageError::Write => "Error writing!",
            StorageError::Sync => "Error synchronizing File!",
            StorageError::InvalidFilePath => "Invalid File Path!",
            StorageError::OpenFile => "Error opening File!",
            StorageError::Read => "Error reading from Flash!",
            StorageError::InvalidFile => "Error invalid File!",
            StorageError::Decrypt => "Error decrypting Password!",
        }
    }
}

/// What is written to the flash for one service: the file path and the packet
/// that goes into the file.
pub struct PasswordFile {
    pub path: heapless::Vec<u8, 64>,
    pub packet: heapless::Vec<u8, 128>,
}

/// Makes the file for a service from the outcome of encrypting its password:
/// a failed encryption is reported as such; otherwise the packet goes into the
/// service's file, when its name can name a file.
pub fn password_file_for_packet(
    encrypted: Result<heapless::Vec<u8, 128>, CryptoError>,
    service_name: &str,
) -> (r: Result<PasswordFile, StorageError>)
    requires
        service_name.spec_bytes().len() <= MAX_SERVICE_NAME_LEN,
    ensures
        encrypted is Err ==> r == Err::<PasswordFile, StorageError>(StorageError::Encrypt),
        encrypted is Ok && is_valid_service_name(service_name.spec_bytes()) ==> r is Ok,
        encrypted is Ok && !is_valid_service_name(service_name.spec_bytes()) ==> r == Err::<
            PasswordFile,
            StorageError,
        >(StorageError::InvalidPath),
        r matches Ok(f) ==> encrypted == Ok::<heapless::Vec<u8, 128>, CryptoError>(f.packet),
        r matches Ok(f) ==> path_bytes(f.path) == service_path_bytes(service_name.spec_bytes()),
{
    let packet = match encrypted {
        Ok(p) => p,
        Err(_) => return Err(StorageError::Encrypt),
    };
    match service_file_path(service_name) {
        Some(path) => Ok(PasswordFile { path, packet }),
        None => Err(StorageError::InvalidPath),
    }
}

/// Prepares saving `password` for `service_name`: encrypts it into a packet
/// and names the file that is to hold it. Encryption fails only when the
/// system's random source fails.
pub fn prepare_password_file(service_name: &str, password: &str) -> (r: Result<PasswordFile, StorageError>)
    requires
        service_name.spec_bytes().len() <= MAX_SERVICE_NAME_LEN,
        password.spec_bytes().len() <= MAX_PASSWORD_LEN,
    ensures
        r is Ok ==> is_valid_service_name(service_name.spec_bytes()),
        !is_valid_service_name(service_name.spec_bytes()) ==> r is Err,
        r matches Err(e) ==> e == StorageError::Encrypt || (e == StorageError::InvalidPath
            && !is_valid_service_name(service_name.spec_bytes())),
        is_valid_service_name(service_name.spec_bytes()) ==> (r is Ok || r == Err::<
            PasswordFile,
            StorageError,
        >(StorageError::Encrypt)),
        r matches Ok(f) ==> path_bytes(f.path) == service_path_bytes(service_name.spec_bytes()),
        r matches Ok(f) ==> packet_bytes(f.packet) == sealed_packet(
            packet_nonce(packet_bytes(f.packet)),
            password.spec_bytes(),
        ),
        r matches Ok(f) ==> opens_to(packet_bytes(f.packet), password.spec_bytes()),
        r matches Ok(f) ==> packet_bytes(f.packet).len() == password.spec_bytes().len()
            + MIN_PACKET_LEN,
{
    let encrypted = encrypt_password(password);
    password_file_for_packet(encrypted, service_name)
}

/// Names the file from which the password of `service_name` is loaded.
pub fn load_file_path(service_name: &str) -> (r: Result<heapless::Vec<u8, 64>, StorageError>)
    requires
        service_name.spec_bytes().len() <= MAX_SERVICE_NAME_LEN,
    ensures
        r is Ok <==> is_valid_service_name(service_name.spec_bytes()),
        r matches Ok(p) ==> path_bytes(p) == service_path_bytes(service_name.spec_bytes()),
        r matches Err(e) ==> e == StorageError::InvalidFilePath,
{
    match service_file_path(service_name) {
        Some(path) => Ok(path),
        None => Err(StorageError::InvalidFilePath),
    }
}

/// `r` is what reading back a password file with contents `p` gives: the
/// password it holds, or the reason it holds none.
pub open spec fn is_loading_of(p: Seq<u8>, r: Result<Seq<u8>, StorageError>) -> bool {
    &&& p.len() < MIN_PACKET_LEN ==> r == Err::<Seq<u8>, StorageError>(StorageError::InvalidFile)
    &&& p.len() >= MIN_PACKET_LEN ==> match r {
        Ok(pt) => opens_to(p, pt),
        Err(e) => e == StorageError::Decrypt && forall|pt: Seq<u8>| !opens_to(p, pt),
    }
    &&& forall|pt: Seq<u8>| #[trigger] opens_to(p, pt) ==> r == Ok::<Seq<u8>, StorageError>(pt)
}

/// The plain view of a load's result.
pub open spec fn loaded_view(r: Result<&[u8], StorageError>) -> Result<Seq<u8>, StorageError> {
    match r {
        Ok(v) => Ok(v@),
        Err(e) => Err(e),
    }
}

/// Recovers the password from the bytes read out of a password file,
/// decrypting them in place: on success the encrypted part of the contents is
/// replaced by the password, which is returned as that part of the contents.
pub fn open_password_file(contents: &mut heapless::Vec<u8, 128>) -> (r: Result<&[u8], StorageError>)
    ensures
        is_loading_of(packet_bytes(*old(contents)), loaded_view(r)),
        r matches Ok(pt) ==> pt@.len() == packet_bytes(*old(contents)).len() - MIN_PACKET_LEN,
        r matches Ok(pt) ==> packet_bytes(*final(contents)) == packet_nonce(
            packet_bytes(*old(contents)),
        ) + pt@ + packet_tag(packet_bytes(*old(contents))),
        r is Err ==> packet_bytes(*final(contents)) == packet_bytes(*old(contents)),
{
    let bytes = packet_as_slice(contents);
    if bytes.len() < MIN_PACKET_LEN {
        return Err(StorageError::InvalidFile);
    }
    match decrypt_password(contents) {
        Ok(password) => Ok(password),
        Err(_) => Err(StorageError::Decrypt),
    }
}

/// A password file written for a password is read back as that password: the
/// packet that saving produces for `password` loads as `password`, whatever
/// nonce it was sealed under.
pub proof fn lemma_saved_password_loads_back(
    contents: Seq<u8>,
    password: Seq<u8>,
    loaded: Result<Seq<u8>, StorageError>,
)
    requires
        opens_to(contents, password),
        is_loading_of(contents, loaded),
    ensures
        loaded == Ok::<Seq<u8>, StorageError>(password),
{
}

/// Where bringing up the file system stands.
#[derive(Debug, Clone, Copy, PartialEq, Eq, Structural)]
pub enum MountStage {
    /// Mounting the file system as it is on the flash.
    FirstMount,
    /// Formatting the flash after the first mount failed.
    Format,
    /// Mounting the freshly formatted file system.
    Remount,
}

/// Why bringing up the file system was given up.
#[derive(Debug, Clone, Copy, PartialEq, Eq, Structural)]
pub enum MountFailure {
    /// Formatting the flash failed.
    FormatFailed,
    /// Mounting failed even after formatting.
    RemountFailed,
}

/// What to do after a stage of bringing up the file system.
#[derive(Debug, Clone, Copy, PartialEq, Eq, Structural)]
pub enum MountStep {
    /// Carry on with the given stage.
    Next(MountStage),
    /// The file system is mounted and ready.
    Mounted,
    /// Give up: the device cannot store passwords.
    Halt(MountFailure),
}

/// The text reported when bringing up the file system is given up.
pub open spec fn mount_failure_text(f: MountFailure) -> Seq<char> {
    match f {
        MountFailure::FormatFailed => "Error formating Flash!"@,
        MountFailure::RemountFailed => "CRITICAL Error mounting Filesystem after formating!"@,
    }
}

impl MountFailure {
    /// The text reported for this failure.
    pub fn message(&self) -> (m: &'static str)
        ensures
            m@ == mount_failure_text(*self),
    {
        match self {
            MountFailure::FormatFailed => "Error formating Flash!",
            MountFailure::RemountFailed => "CRITICAL Error mounting Filesystem after formating!",
        }
    }
}

/// What follows a stage of bringing up the file system, given whether the stage
/// succeeded: a file system that does not mount is formatted once and mounted
/// again; a failure after that is fatal.
pub open spec fn next_mount_step(stage: MountStage, succeeded: bool) -> MountStep {
    match (stage, succeeded) {
        (MountStage::FirstMount, true) => MountStep::Mounted,
        (MountStage::FirstMount, false) => MountStep::Next(MountStage::Format),
        (MountStage::Format, true) => MountStep::Next(MountStage::Remount),
        (MountStage::Format, false) => MountStep::Halt(MountFailure::FormatFailed),
        (MountStage::Remount, true) => MountStep::Mounted,
        (MountStage::Remount, false) => MountStep::Halt(MountFailure::RemountFailed),
    }
}

/// The position of a stage in the order in which they are tried.
pub open spec fn mount_stage_rank(stage: MountStage) -> int {
    match stage {
        MountStage::FirstMount => 0,
        MountStage::Format => 1,
        MountStage::Remount => 2,
    }
}

/// Decides what follows a stage of bringing up the file system.
pub fn mount_step(stage: MountStage, succeeded: bool) -> (step: MountStep)
    ensures
        step == next_mount_step(stage, succeeded),
{
    match stage {
        MountStage::FirstMount => if succeeded {
            MountStep::Mounted
        } else {
            MountStep::Next(MountStage::Format)
        },
        MountStage::Format => if succeeded {
            MountStep::Next(MountStage::Remount)
        } else {
            MountStep::Halt(MountFailure::FormatFailed)
        },
        MountStage::Remount => if succeeded {
            MountStep::Mounted
        } else {
            MountStep::Halt(MountFailure::RemountFailed)
        },
    }
}

/// Bringing up the file system only moves forward through its stages, one at a
/// time, so it formats the flash at most once and ends after at most three
/// stages; it formats only after the first mount failed, and it counts as
/// mounted only right after a mount succeeded.
pub proof fn lemma_mount_steps_move_forward(stage: MountStage, succeeded: bool)
    ensures
        next_mount_step(stage, succeeded) matches MountStep::Next(next) ==> mount_stage_rank(next)
            == mount_stage_rank(stage) + 1,
        next_mount_step(stage, succeeded) == MountStep::Next(MountStage::Format) <==> (stage
            == MountStage::FirstMount && !succeeded),
        next_mount_step(stage, succeeded) == MountStep::Mounted ==> succeeded && stage
            != MountStage::Format,
{
}

} // verus!
