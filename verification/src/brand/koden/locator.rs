//! Finding Koden radars on the network.

use vstd::prelude::*;
use vstd::slice::*;

use super::protocol::{
    CMD_BROADCAST_SETTING, CMD_KEEPALIVE_ACK, CMD_MAC_ADDRESS, CMD_MODEL_CODE, CMD_MODEL_INFO,
    CONTROL_PREFIX, IMAGE_MARKER, IMG_MIN_SIZE, RESP_ERROR, RESP_POWER, RESP_WARMUP,
    STATUS_PREFIX,
};
use crate::bytes::same_bytes;

verus! {

/// Whether a packet is an image packet.
pub open spec fn is_image(data: Seq<u8>) -> bool {
    data.len() >= IMG_MIN_SIZE && data.take(4) == IMAGE_MARKER@
}

/// Whether a packet is an image packet.
pub fn is_image_packet(data: &[u8]) -> (r: bool)
    ensures
        r == is_image(data@),
{
    if data.len() < IMG_MIN_SIZE {
        return false;
    }
    assert(data@.take(4) =~= data@.subrange(0, 4));
    same_bytes(slice_subrange(data, 0, 4), &IMAGE_MARKER)
}

/// Whether a packet comes from a Koden radar: a power, warmup or error
/// response, a status that only a radar sends, or an image.
pub open spec fn from_koden(report: Seq<u8>) -> bool {
    &&& report.len() >= 3
    &&& {
        ||| report[0] == CONTROL_PREFIX && (report[1] == RESP_POWER || report[1] == RESP_WARMUP
            || report[1] == RESP_ERROR)
        ||| report[0] == STATUS_PREFIX && (report[1] == CMD_MODEL_INFO || report[1]
            == CMD_MODEL_CODE || report[1] == CMD_MAC_ADDRESS || report[1] == CMD_KEEPALIVE_ACK
            || report[1] == CMD_BROADCAST_SETTING)
        ||| is_image(report)
    }
}

/// Whether a packet comes from a Koden radar.
pub fn process_locator_report(report: &[u8]) -> (r: bool)
    ensures
        r == from_koden(report@),
{
    if report.len() < 3 {
        return false;
    }
    let cmd: u8 = report[1];
    let image = is_image_packet(report);
    proof {
        if image {
            assert(report@[0] == report@.take(4)[0]);
        }
    }
    match report[0] {
        CONTROL_PREFIX => cmd == RESP_POWER || cmd == RESP_WARMUP || cmd == RESP_ERROR,
        STATUS_PREFIX => cmd == CMD_MODEL_INFO || cmd == CMD_MODEL_CODE || cmd == CMD_MAC_ADDRESS
            || cmd == CMD_KEEPALIVE_ACK || cmd == CMD_BROADCAST_SETTING,
        _ => image,
    }
}

/// What comes from a Koden radar: its answers to the first requests, its power, warmup and
/// error messages, and images.
pub proof fn law_koden_packets(report: Seq<u8>)
    requires
        report.len() >= 3,
    ensures
        report[0] == 0x26 ==> (from_koden(report) <==> report[1] == 0x70 || report[1] == 0x61
            || report[1] == 0x65),
        report[0] == 0x23 ==> (from_koden(report) <==> report[1] == 0x4e || report[1] == 0x72
            || report[1] == CMD_MAC_ADDRESS || report[1] == CMD_KEEPALIVE_ACK || report[1]
            == CMD_BROADCAST_SETTING),
        report[0] != 0x26 && report[0] != 0x23 ==> (from_koden(report) <==> report.len() >= 44
            && report[0] == 0x7b && report[1] == 0x7b && report[2] == 0x7b && report[3] == 0x7b),
{
    if report.len() >= 44 {
        let head = report.take(4);
        assert(head[0] == report[0] && head[1] == report[1] && head[2] == report[2] && head[3]
            == report[3]);
        if report[0] == 0x7b && report[1] == 0x7b && report[2] == 0x7b && report[3] == 0x7b {
            assert(head =~= IMAGE_MARKER@);
        }
    }
}

} // verus!
