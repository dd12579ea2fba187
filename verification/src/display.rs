//! The display as the controller sees it.
//!
//! `Display` models the state the logic reads and writes: the name used
//! to address the output, the last brightness applied, and the device's
//! maximum. The filesystem- and subprocess-facing halves of the driver
//! construct one of these, keep it in step with the real backlight, and
//! perform the actual writes; the checks and the selection logic live
//! here, verified.

use vstd::prelude::*;

use crate::error::Error;

verus! {

/// The power state requested of the display.
#[derive(Debug, Clone, Copy, PartialEq, Eq, Structural)]
pub enum DisplayPowerMode {
    On,
    Off,
}

/// A display with a controllable backlight.
#[derive(Debug, Clone)]
pub struct Display {
    /// The output name the power-control tool addresses.
    pub name: String,
    /// The brightness most recently applied.
    pub brightness: u32,
    /// The largest brightness the device accepts.
    pub max_brightness: u32,
}

impl Display {
    /// Records a brightness write after checking it against the device's
    /// supported range, failing without a change when it is out of range.
    pub fn set_brightness(&mut self, brightness: u32) -> (r: Result<(), Error>)
        ensures
            r is Ok <==> brightness <= old(self).max_brightness,
            brightness <= old(self).max_brightness ==> *final(self) == (Display {
                brightness,
                ..*old(self)
            }),
            brightness > old(self).max_brightness ==> *final(self) == *old(self) && r == Err::<
                (),
                Error,
            >(Error::BrightnessOutOfRange { value: brightness, max: old(self).max_brightness }),
    {
        if brightness > self.max_brightness {
            return Err(Error::BrightnessOutOfRange { value: brightness, max: self.max_brightness });
        }
        self.brightness = brightness;
        Ok(())
    }
}

/// ASCII-folded byte: upper-case letters lowered, all else unchanged.
pub open spec fn ascii_lower_byte(b: u8) -> u8 {
    if 65 <= b <= 90 {
        (b + 32) as u8
    } else {
        b
    }
}

/// Byte sequences equal up to ASCII case.
pub open spec fn bytes_eq_ignore_ascii_case(a: Seq<u8>, b: Seq<u8>) -> bool {
    a.len() == b.len() && forall|i: int|
        0 <= i < a.len() ==> ascii_lower_byte(a[i]) == ascii_lower_byte(b[i])
}

/// Strings equal up to ASCII case, compared over their UTF-8 bytes.
pub open spec fn names_match(a: Seq<char>, b: Seq<char>) -> bool {
    bytes_eq_ignore_ascii_case(
        vstd::utf8::encode_utf8(a),
        vstd::utf8::encode_utf8(b),
    )
}

/// Compares two names for equality up to ASCII case.
pub fn name_eq_ignore_ascii_case(a: &str, b: &str) -> (r: bool)
    ensures
        r == names_match(a@, b@),
{
    let ab = a.as_bytes();
    let bb = b.as_bytes();
    if ab.len() != bb.len() {
        return false;
    }
    let n = ab.len();
    let mut i: usize = 0;
    while i < n
        invariant
            0 <= i <= n,
            n == ab@.len(),
            n == bb@.len(),
            ab@ == vstd::utf8::encode_utf8(a@),
            bb@ == vstd::utf8::encode_utf8(b@),
            forall|j: int| 0 <= j < i ==> ascii_lower_byte(ab@[j]) == ascii_lower_byte(bb@[j]),
        decreases n - i,
    {
        let x = *vstd::slice::slice_index_get(ab, i);
        let y = *vstd::slice::slice_index_get(bb, i);
        let xl: u8 = if 65 <= x && x <= 90 { x + 32 } else { x };
        let yl: u8 = if 65 <= y && y <= 90 { y + 32 } else { y };
        if xl != yl {
            return false;
        }
        i += 1;
    }
    true
}

/// A stderr stream that begins with the bytes `ERROR`.
pub open spec fn spec_error_prefix(s: Seq<u8>) -> bool {
    s.len() >= 5 && s[0] == 69u8 && s[1] == 82u8 && s[2] == 82u8 && s[3] == 79u8 && s[4] == 82u8
}

/// Decides whether the external power-control tool reported a failure.
///
/// The tool exits successfully even when it fails, so the only signal is
/// an `ERROR` prefix on its standard error - a documented, fragile
/// protocol assumption, checked here exactly and nowhere else.
pub fn stderr_indicates_error(stderr: &[u8]) -> (r: bool)
    ensures
        r == spec_error_prefix(stderr@),
{
    if stderr.len() < 5 {
        return false;
    }
    *vstd::slice::slice_index_get(stderr, 0) == 69 && *vstd::slice::slice_index_get(stderr, 1)
        == 82 && *vstd::slice::slice_index_get(stderr, 2) == 82 && *vstd::slice::slice_index_get(
        stderr,
        3,
    ) == 79 && *vstd::slice::slice_index_get(stderr, 4) == 82
}

/// Picks the display to manage from those found: the first whose name
/// matches the requested one up to ASCII case, or, when no name is
/// requested, the first found; `None` when nothing qualifies.
pub fn select_display(displays: Vec<Display>, display_name: Option<&String>) -> (r: Option<
    Display,
>)
    ensures
        display_name matches Some(n) ==> (r is Some <==> exists|i: int|
            0 <= i < displays@.len() && names_match(displays@[i].name@, n@)),
        display_name matches Some(n) ==> r matches Some(d) ==> exists|i: int|
            {
                &&& 0 <= i < displays@.len()
                &&& d == displays@[i]
                &&& names_match(displays@[i].name@, n@)
                &&& forall|j: int| 0 <= j < i ==> !names_match(displays@[j].name@, n@)
            },
        display_name is None ==> (r is Some <==> displays@.len() > 0),
        display_name is None && displays@.len() > 0 ==> r == Some(displays@[0]),
{
    let mut ds = displays;
    match display_name {
        Some(n) => {
            let len = ds.len();
            let mut i: usize = 0;
            while i < len
                invariant
                    display_name == Some(n),
                    0 <= i <= len,
                    len == ds@.len(),
                    ds@ == displays@,
                    forall|j: int| 0 <= j < i ==> !names_match(displays@[j].name@, n@),
                decreases len - i,
            {
                if name_eq_ignore_ascii_case(ds[i].name.as_str(), n.as_str()) {
                    let d = ds.remove(i);
                    proof {
                        // Witness for both existentials in the contract.
                        let wi = i as int;
                        assert(exists|k: int|
                            {
                                &&& 0 <= k < displays@.len()
                                &&& d == displays@[k]
                                &&& names_match(displays@[k].name@, n@)
                                &&& forall|j: int| 0 <= j < k ==> !names_match(
                                    displays@[j].name@,
                                    n@,
                                )
                            }) by {
                            assert(0 <= wi < displays@.len() && d == displays@[wi]
                                && names_match(displays@[wi].name@, n@) && forall|j: int|
                                0 <= j < wi ==> !names_match(displays@[j].name@, n@));
                        }
                        assert(exists|k: int|
                            0 <= k < displays@.len() && names_match(displays@[k].name@, n@)) by {
                            assert(0 <= wi < displays@.len() && names_match(
                                displays@[wi].name@,
                                n@,
                            ));
                        }
                    }
                    return Some(d);
                }
                i += 1;
            }
            None
        },
        None => {
            if ds.len() > 0 {
                Some(ds.remove(0))
            } else {
                None
            }
        },
    }
}

} // verus!
