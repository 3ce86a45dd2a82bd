//! Verified core of an OBD2 dashboard: the message types exchanged between the
//! dashboard, the modem and the host tools, the ISO-TP segmentation and
//! reassembly of diagnostic responses, PID decoding, device command framing and
//! the display state machine.

pub mod types;
pub mod isotp;
pub mod sim_config;
pub mod framing;
pub mod serial_link;
pub mod pids;
pub mod mcp2515;
pub mod cap1188;
pub mod rgb;
pub mod buttons;
pub mod lcd;
pub mod display_buffer;
pub mod modem_at;
pub mod widgets;
pub mod pid_list;
