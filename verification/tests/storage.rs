use hardware_password_manager::aes::encrypt_password;
use hardware_password_manager::storage::{
    flash_access_address, flash_erase_range, load_file_path, mount_step, open_password_file,
    prepare_password_file, service_file_path, FlashError, MountFailure, MountStage, MountStep,
    StorageError, BASE_ADDRESS, BLOCK_COUNT, BLOCK_SIZE, PARTITION_SIZE,
};

fn packet_from(bytes: &[u8]) -> heapless::Vec<u8, 128> {
    heapless::Vec::from_slice(bytes).unwrap()
}

#[test]
fn partition_is_thirty_two_sectors_of_four_kib() {
    assert_eq!(BLOCK_SIZE, 4096);
    assert_eq!(BLOCK_COUNT, 32);
    assert_eq!(PARTITION_SIZE, BLOCK_SIZE * BLOCK_COUNT);
    assert_eq!(BASE_ADDRESS, 0x3C0000);
}

#[test]
fn access_inside_partition_is_translated() {
    assert_eq!(flash_access_address(0, 32), Ok(0x3C0000));
    assert_eq!(flash_access_address(4096, 4096), Ok(0x3C1000));
    assert_eq!(flash_access_address(PARTITION_SIZE - 1, 1), Ok(0x3C0000 + 131071));
    assert_eq!(flash_access_address(PARTITION_SIZE, 0), Ok(0x3C0000 + 131072));
}

#[test]
fn access_past_partition_is_refused() {
    assert_eq!(flash_access_address(PARTITION_SIZE, 1), Err(FlashError::OutOfBounds));
    assert_eq!(flash_access_address(PARTITION_SIZE - 31, 32), Err(FlashError::OutOfBounds));
    assert_eq!(flash_access_address(0, PARTITION_SIZE + 1), Err(FlashError::OutOfBounds));
}

#[test]
fn erase_range_is_translated_or_refused() {
    assert_eq!(flash_erase_range(0, 4096), Ok((0x3C0000, 0x3C1000)));
    assert_eq!(flash_erase_range(126976, 4096), Ok((0x3DF000, 0x3E0000)));
    assert_eq!(flash_erase_range(126976, 4097), Err(FlashError::OutOfBounds));
}

#[test]
fn service_path_appends_bin_and_nul() {
    let path = service_file_path("github").unwrap();
    assert_eq!(path.as_slice(), b"github.bin\0");
}

#[test]
fn longest_service_name_fits() {
    let name = "s".repeat(59);
    let path = service_file_path(&name).unwrap();
    assert_eq!(path.len(), 64);
}

#[test]
fn non_ascii_or_nul_service_names_are_refused() {
    assert!(service_file_path("Bücher").is_none());
    assert!(service_file_path("a\0b").is_none());
    assert!(service_file_path("").is_some());
}

#[test]
fn saving_an_invalid_name_reports_invalid_path() {
    let r = prepare_password_file("Bücher", "pw");
    assert!(matches!(r, Err(StorageError::InvalidPath)));
    assert_eq!(load_file_path("Bücher"), Err(StorageError::InvalidFilePath));
}

#[test]
fn saved_password_loads_back() {
    let file = prepare_password_file("github", "EmbeddedRust").unwrap();
    assert_eq!(file.path.as_slice(), b"github.bin\0");
    let load_path = load_file_path("github").unwrap();
    assert_eq!(load_path, file.path);
    assert_eq!(file.packet.len(), "EmbeddedRust".len() + 28);
    let mut read_back = packet_from(file.packet.as_slice());
    assert_eq!(open_password_file(&mut read_back).unwrap(), b"EmbeddedRust");
    assert_eq!(read_back.len(), 40);
}

#[test]
fn short_file_is_invalid() {
    let mut packet = packet_from(&[1u8; 27]);
    assert_eq!(open_password_file(&mut packet), Err(StorageError::InvalidFile));
}

#[test]
fn corrupted_file_does_not_decrypt() {
    let packet = encrypt_password("EmbeddedRust").unwrap();
    let mut bytes = packet.to_vec();
    bytes[20] ^= 0x10;
    assert_eq!(open_password_file(&mut packet_from(&bytes)), Err(StorageError::Decrypt));
}

#[test]
fn storage_error_messages() {
    assert_eq!(StorageError::Encrypt.message(), "Error encrypting!");
    assert_eq!(StorageError::InvalidPath.message(), "Invalid Path!");
    assert_eq!(StorageError::CreateFile.message(), "Error creating File!");
    assert_eq!(StorageError::Write.message(), "Error writing!");
    assert_eq!(StorageError::Sync.message(), "Error synchronizing File!");
    assert_eq!(StorageError::InvalidFilePath.message(), "Invalid File Path!");
    assert_eq!(StorageError::OpenFile.message(), "Error opening File!");
    assert_eq!(StorageError::Read.message(), "Error reading from Flash!");
    assert_eq!(StorageError::InvalidFile.message(), "Error invalid File!");
    assert_eq!(StorageError::Decrypt.message(), "Error decrypting Password!");
}

#[test]
fn mount_recovery_formats_once_then_gives_up() {
    assert_eq!(mount_step(MountStage::FirstMount, true), MountStep::Mounted);
    assert_eq!(
        mount_step(MountStage::FirstMount, false),
        MountStep::Next(MountStage::Format)
    );
    assert_eq!(
        mount_step(MountStage::Format, true),
        MountStep::Next(MountStage::Remount)
    );
    assert_eq!(
        mount_step(MountStage::Format, false),
        MountStep::Halt(MountFailure::FormatFailed)
    );
    assert_eq!(mount_step(MountStage::Remount, true), MountStep::Mounted);
    assert_eq!(
        mount_step(MountStage::Remount, false),
        MountStep::Halt(MountFailure::RemountFailed)
    );
    assert_eq!(MountFailure::FormatFailed.message(), "Error formating Flash!");
    assert_eq!(
        MountFailure::RemountFailed.message(),
        "CRITICAL Error mounting Filesystem after formating!"
    );
}
