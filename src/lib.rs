//! Host-side library for the SunPCi x86 co-processor card.
//!
//! It holds the fixed-layout records exchanged with the card's driver
//! (`ioctl`), the request building and checks around each driver call
//! (`client`), the SCSI/MMC vocabulary and the command handling of the
//! virtual CD-ROM (`scsi`, `cdrom`), and the synthesis and parsing of
//! virtual hard-disk images (`disk_image`). Around them sit the pure parts of
//! the host front end: input translation, framebuffer conversion, clipboard
//! and network settings, drive mappings, audio buffering and configuration.

pub mod ioctl;
pub mod scsi;
pub mod disk_image;
pub mod types;
pub mod client;
pub mod cdrom;
pub mod framebuffer;
pub mod input;
pub mod network;
pub mod drive_map;
pub mod clipboard;
pub mod config;
pub mod audio;
