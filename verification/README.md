# hardware_password_manager

A hardware password vault for the ESP32-S3. The library in `src/` holds the
parts whose behaviour is stated and proved with Verus:

- `aes`: a password is sealed with AES-256-GCM into a packet made of the
  12-byte nonce, the ciphertext and the 16-byte tag; opening a packet
  authenticates it and gives the password back.
- `storage`: where the littlefs partition lies on the flash and which accesses
  stay inside it, the file path of each service's password, how a password
  file is prepared and read back, and how a file system that does not mount
  is formatted once and mounted again.
- `usb`: the German keyboard layout that types characters as HID key presses,
  the press and release reports that type a text or enter a password, and the
  state of the USB device handler.
- `bounded`: the fixed-capacity `heapless` buffers that hold packets and paths.

`app/` is the firmware around it: the flash driver, file I/O, the USB HID
keyboard, the display and `main`.
