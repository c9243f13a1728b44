//! Numeric constants of the mpv client interface: format discriminators,
//! status codes, event identifiers, log levels and end-of-file reasons.
use vstd::prelude::*;

verus! {

/// Client interface version this library is written for: major 2, minor 5,
/// packed as `(major << 16) | minor`.
pub const EXPECTED_MPV_VERSION: u32 = 131077;

/// Client interface version of the header the constants below are taken from.
pub const MPV_CLIENT_API_VERSION: u32 = 131077;

pub const MPV_FORMAT_NONE: u32 = 0;
pub const MPV_FORMAT_STRING: u32 = 1;
pub const MPV_FORMAT_OSD_STRING: u32 = 2;
pub const MPV_FORMAT_FLAG: u32 = 3;
pub const MPV_FORMAT_INT64: u32 = 4;
pub const MPV_FORMAT_DOUBLE: u32 = 5;
pub const MPV_FORMAT_NODE: u32 = 6;
pub const MPV_FORMAT_NODE_ARRAY: u32 = 7;
pub const MPV_FORMAT_NODE_MAP: u32 = 8;
pub const MPV_FORMAT_BYTE_ARRAY: u32 = 9;

pub const MPV_ERROR_SUCCESS: i32 = 0;
pub const MPV_ERROR_EVENT_QUEUE_FULL: i32 = -1;
pub const MPV_ERROR_NOMEM: i32 = -2;
pub const MPV_ERROR_UNINITIALIZED: i32 = -3;
pub const MPV_ERROR_INVALID_PARAMETER: i32 = -4;
pub const MPV_ERROR_OPTION_NOT_FOUND: i32 = -5;
pub const MPV_ERROR_OPTION_FORMAT: i32 = -6;
pub const MPV_ERROR_OPTION_ERROR: i32 = -7;
pub const MPV_ERROR_PROPERTY_NOT_FOUND: i32 = -8;
pub const MPV_ERROR_PROPERTY_FORMAT: i32 = -9;
pub const MPV_ERROR_PROPERTY_UNAVAILABLE: i32 = -10;
pub const MPV_ERROR_PROPERTY_ERROR: i32 = -11;
pub const MPV_ERROR_COMMAND: i32 = -12;
pub const MPV_ERROR_LOADING_FAILED: i32 = -13;
pub const MPV_ERROR_AO_INIT_FAILED: i32 = -14;
pub const MPV_ERROR_VO_INIT_FAILED: i32 = -15;
pub const MPV_ERROR_NOTHING_TO_PLAY: i32 = -16;
pub const MPV_ERROR_UNKNOWN_FORMAT: i32 = -17;
pub const MPV_ERROR_UNSUPPORTED: i32 = -18;
pub const MPV_ERROR_NOT_IMPLEMENTED: i32 = -19;
pub const MPV_ERROR_GENERIC: i32 = -20;

pub const MPV_EVENT_NONE: u32 = 0;
pub const MPV_EVENT_SHUTDOWN: u32 = 1;
pub const MPV_EVENT_LOG_MESSAGE: u32 = 2;
pub const MPV_EVENT_GET_PROPERTY_REPLY: u32 = 3;
pub const MPV_EVENT_SET_PROPERTY_REPLY: u32 = 4;
pub const MPV_EVENT_COMMAND_REPLY: u32 = 5;
pub const MPV_EVENT_START_FILE: u32 = 6;
pub const MPV_EVENT_END_FILE: u32 = 7;
pub const MPV_EVENT_FILE_LOADED: u32 = 8;
pub const MPV_EVENT_IDLE: u32 = 11;
pub const MPV_EVENT_TICK: u32 = 14;
pub const MPV_EVENT_CLIENT_MESSAGE: u32 = 16;
pub const MPV_EVENT_VIDEO_RECONFIG: u32 = 17;
pub const MPV_EVENT_AUDIO_RECONFIG: u32 = 18;
pub const MPV_EVENT_SEEK: u32 = 20;
pub const MPV_EVENT_PLAYBACK_RESTART: u32 = 21;
pub const MPV_EVENT_PROPERTY_CHANGE: u32 = 22;
pub const MPV_EVENT_QUEUE_OVERFLOW: u32 = 24;
pub const MPV_EVENT_HOOK: u32 = 25;

pub const MPV_LOG_LEVEL_NONE: u32 = 0;
pub const MPV_LOG_LEVEL_FATAL: u32 = 10;
pub const MPV_LOG_LEVEL_ERROR: u32 = 20;
pub const MPV_LOG_LEVEL_WARN: u32 = 30;
pub const MPV_LOG_LEVEL_INFO: u32 = 40;
pub const MPV_LOG_LEVEL_V: u32 = 50;
pub const MPV_LOG_LEVEL_DEBUG: u32 = 60;
pub const MPV_LOG_LEVEL_TRACE: u32 = 70;

pub const MPV_END_FILE_REASON_EOF: u32 = 0;
pub const MPV_END_FILE_REASON_STOP: u32 = 2;
pub const MPV_END_FILE_REASON_QUIT: u32 = 3;
pub const MPV_END_FILE_REASON_ERROR: u32 = 4;
pub const MPV_END_FILE_REASON_REDIRECT: u32 = 5;

} // verus!
