//! Cartridge header parsing: the 192-byte header carries an ASCII
//! title at offsets 0xA0..0xAC.

use vstd::prelude::*;
use crate::CoreError;

verus! {

/// What the header of a cartridge image yields.
pub struct CartridgeInfo {
    pub title: String,
}

/// The title bytes of a cartridge image: offsets 0xA0..0xAC.
pub open spec fn spec_title_bytes(data: Seq<u8>) -> Seq<u8> {
    data.subrange(0xA0, 0xAC)
}

/// Whether every title byte is ASCII.
pub open spec fn spec_title_is_ascii(data: Seq<u8>) -> bool {
    forall|i: int| 0 <= i < 12 ==> spec_title_bytes(data)[i] < 0x80
}

/// Relies on `String::from_utf8`: ASCII bytes are valid UTF-8 and
/// decode to one character per byte, each the character with the
/// byte's scalar value.
#[verifier::external_body]
fn ascii_bytes_to_string(bytes: &Vec<u8>) -> (r: String)
    requires
        forall|i: int| 0 <= i < bytes@.len() ==> bytes@[i] < 0x80,
    ensures
        r@.len() == bytes@.len(),
        forall|i: int| 0 <= i < bytes@.len() ==> r@[i] == bytes@[i] as char,
{
    match String::from_utf8(bytes.clone()) {
        Ok(s) => s,
        Err(_) => String::new(),
    }
}

impl CartridgeInfo {
    /// Read the title out of a cartridge image. The image must reach
    /// past the header and the title bytes must be ASCII.
    pub fn parse(data: &Vec<u8>) -> (r: Result<CartridgeInfo, CoreError>)
        ensures
            match r {
                Ok(info) => data@.len() >= 0xAC && spec_title_is_ascii(data@) && info.title@.len()
                    == 12 && (forall|i: int|
                    0 <= i < 12 ==> info.title@[i] == spec_title_bytes(data@)[i] as char),
                Err(e) => (data@.len() < 0xAC || !spec_title_is_ascii(data@)) && e
                    == CoreError::MalformedHeader,
            },
    {
        if data.len() < 0xAC {
            return Err(CoreError::MalformedHeader);
        }
        let mut bytes: Vec<u8> = Vec::new();
        let mut k: usize = 0;
        while k < 12
            invariant
                k <= 12,
                data@.len() >= 0xAC,
                bytes@.len() == k,
                forall|i: int| 0 <= i < k ==> bytes@[i] == data@[0xA0 + i] && bytes@[i] < 0x80,
            decreases 12 - k,
        {
            let b = data[0xA0 + k];
            if b >= 0x80 {
                proof {
                    assert(spec_title_bytes(data@)[k as int] == data@[0xA0 + k as int]);
                }
                return Err(CoreError::MalformedHeader);
            }
            bytes.push(b);
            k = k + 1;
        }
        let title = ascii_bytes_to_string(&bytes);
        proof {
            assert forall|i: int| 0 <= i < 12 implies title@[i] == spec_title_bytes(data@)[i]
                as char by {
                assert(spec_title_bytes(data@)[i] == data@[0xA0 + i]);
            }
            assert forall|i: int| 0 <= i < 12 implies spec_title_bytes(data@)[i] < 0x80 by {
                assert(spec_title_bytes(data@)[i] == data@[0xA0 + i]);
                assert(bytes@[i] == data@[0xA0 + i]);
            }
        }
        Ok(CartridgeInfo { title })
    }
}

} // verus!
