//! HID boot-keyboard input reports and the report descriptor.
use vstd::prelude::*;
use vstd::slice::slice_to_vec;
use crate::keycode::{Keycode, keycode_of};

verus! {

/// Bytes in one input report.
pub const REPORT_LEN: usize = 8;

/// Bytes in the report descriptor.
pub const DESCRIPTOR_LEN: usize = 63;

/// The report for a key press: modifier mask in byte 0, usage code in
/// byte 2, every other byte zero.
pub open spec fn press_report(k: Keycode) -> Seq<u8> {
    seq![k.modifiers, 0u8, k.code, 0u8, 0u8, 0u8, 0u8, 0u8]
}

/// The all-zero report that releases every key.
pub open spec fn release_report() -> Seq<u8> {
    seq![0u8, 0u8, 0u8, 0u8, 0u8, 0u8, 0u8, 0u8]
}

/// The reports that type `text`: for each byte in order, its key press
/// followed by a release.
pub open spec fn reports_for(text: Seq<u8>) -> Seq<Seq<u8>> {
    Seq::new(
        2 * text.len(),
        |i: int|
            if i % 2 == 0 {
                press_report(keycode_of(text[i / 2]))
            } else {
                release_report()
            },
    )
}

/// The HID boot-keyboard report descriptor (generic desktop page,
/// keyboard usage): eight modifier bits, a reserved byte, five LED bits
/// with padding, and six key slots.
pub open spec fn report_descriptor() -> Seq<u8> {
    seq![
        0x05u8, 0x01, 0x09, 0x06, 0xa1, 0x01, 0x05, 0x07,
        0x19, 0xe0, 0x29, 0xe7, 0x15, 0x00, 0x25, 0x01,
        0x75, 0x01, 0x95, 0x08, 0x81, 0x02, 0x95, 0x01,
        0x75, 0x08, 0x81, 0x03, 0x95, 0x05, 0x75, 0x01,
        0x05, 0x08, 0x19, 0x01, 0x29, 0x05, 0x91, 0x02,
        0x95, 0x01, 0x75, 0x03, 0x91, 0x03, 0x95, 0x06,
        0x75, 0x08, 0x15, 0x00, 0x25, 0x65, 0x05, 0x07,
        0x19, 0x00, 0x29, 0x65, 0x81, 0x00, 0xc0
    ]
}

/// The report descriptor bytes, to be written to the gadget's
/// `report_desc` file.
pub fn gadget_report_descriptor() -> (r: Vec<u8>)
    ensures
        r@ == report_descriptor(),
        r@.len() == DESCRIPTOR_LEN,
{
    let bytes: [u8; DESCRIPTOR_LEN] = [
        0x05u8, 0x01, // USAGE_PAGE (Generic Desktop)
        0x09, 0x06, // USAGE (Keyboard)
        0xa1, 0x01, // COLLECTION (Application)
        0x05, 0x07, //   USAGE_PAGE (Keyboard)
        0x19, 0xe0, //   USAGE_MINIMUM (Keyboard LeftControl)
        0x29, 0xe7, //   USAGE_MAXIMUM (Keyboard Right GUI)
        0x15, 0x00, //   LOGICAL_MINIMUM (0)
        0x25, 0x01, //   LOGICAL_MAXIMUM (1)
        0x75, 0x01, //   REPORT_SIZE (1)
        0x95, 0x08, //   REPORT_COUNT (8)
        0x81, 0x02, //   INPUT (Data,Var,Abs)
        0x95, 0x01, //   REPORT_COUNT (1)
        0x75, 0x08, //   REPORT_SIZE (8)
        0x81, 0x03, //   INPUT (Cnst,Var,Abs)
        0x95, 0x05, //   REPORT_COUNT (5)
        0x75, 0x01, //   REPORT_SIZE (1)
        0x05, 0x08, //   USAGE_PAGE (LEDs)
        0x19, 0x01, //   USAGE_MINIMUM (Num Lock)
        0x29, 0x05, //   USAGE_MAXIMUM (Kana)
        0x91, 0x02, //   OUTPUT (Data,Var,Abs)
        0x95, 0x01, //   REPORT_COUNT (1)
        0x75, 0x03, //   REPORT_SIZE (3)
        0x91, 0x03, //   OUTPUT (Cnst,Var,Abs)
        0x95, 0x06, //   REPORT_COUNT (6)
        0x75, 0x08, //   REPORT_SIZE (8)
        0x15, 0x00, //   LOGICAL_MINIMUM (0)
        0x25, 0x65, //   LOGICAL_MAXIMUM (101)
        0x05, 0x07, //   USAGE_PAGE (Keyboard)
        0x19, 0x00, //   USAGE_MINIMUM (Reserved)
        0x29, 0x65, //   USAGE_MAXIMUM (Keyboard Application)
        0x81, 0x00, //   INPUT (Data,Ary,Abs)
        0xc0, // END_COLLECTION
    ];
    let r = slice_to_vec(bytes.as_slice());
    assert(r@ =~= report_descriptor());
    r
}

/// The report that presses the key of `k`.
pub fn key_report(k: Keycode) -> (r: [u8; REPORT_LEN])
    ensures
        r@ == press_report(k),
{
    let r: [u8; REPORT_LEN] = [k.modifiers, 0, k.code, 0, 0, 0, 0, 0];
    assert(r@ =~= press_report(k));
    r
}

/// The report that releases every key.
pub fn empty_report() -> (r: [u8; REPORT_LEN])
    ensures
        r@ == release_report(),
{
    let r: [u8; REPORT_LEN] = [0; REPORT_LEN];
    assert(r@ =~= release_report());
    r
}

/// The reports that type `text`, in the order they are to be written:
/// a key press for each byte, each followed by a release.
pub fn string_reports(text: &[u8]) -> (r: Vec<[u8; REPORT_LEN]>)
    ensures
        r@.len() == 2 * text@.len(),
        forall|i: int| 0 <= i < r@.len() ==> #[trigger] r@[i]@ == reports_for(text@)[i],
{
    let mut r: Vec<[u8; REPORT_LEN]> = Vec::new();
    let mut i: usize = 0;
    while i < text.len()
        invariant
            i <= text@.len(),
            r@.len() == 2 * i,
            forall|j: int| 0 <= j < r@.len() ==> #[trigger] r@[j]@ == reports_for(text@)[j],
        decreases text@.len() - i,
    {
        let key = Keycode::from_ascii(text[i]);
        r.push(key_report(key));
        r.push(empty_report());
        i = i + 1;
    }
    r
}

} // verus!
