//! Locating the kernel image's debug-symbol identity: the `RSDS` record
//! that names the matching symbol file by GUID and age.
use vstd::prelude::*;

verus! {

/// Identity of a symbol file: GUID bytes as stored, and age.
#[derive(Clone, Copy, Debug)]
pub struct CodeViewId {
    pub guid: [u8; 16],
    pub age: u32,
}

/// The record signature `RSDS` starts at `i`.
pub open spec fn rsds_at(b: Seq<u8>, i: int) -> bool {
    0 <= i && i + 4 <= b.len() && b[i] == 0x52 && b[i + 1] == 0x53 && b[i + 2] == 0x44 && b[i + 3]
        == 0x53
}

pub open spec fn spec_le_u32_at(b: Seq<u8>, i: int) -> u32 {
    (b[i] as u32) | ((b[i + 1] as u32) << 8u32) | ((b[i + 2] as u32) << 16u32) | ((b[i + 3] as u32)
        << 24u32)
}

/// Finds the first `RSDS` signature at a multiple of four bytes; the GUID
/// follows in the next 16 bytes and the little-endian age in the 4 after.
/// `None` when there is no signature, or the record is cut off.
pub fn find_codeview(image: &Vec<u8>) -> (r: Option<CodeViewId>)
    ensures
        match r {
            Some(id) => exists|i: int|
                {
                    &&& i % 4 == 0
                    &&& rsds_at(image@, i)
                    &&& forall|j: int| 0 <= j < i && j % 4 == 0 ==> !rsds_at(image@, j)
                    &&& i + 24 <= image@.len()
                    &&& id.guid@ == image@.subrange(i + 4, i + 20)
                    &&& id.age == spec_le_u32_at(image@, i + 20)
                },
            None => forall|i: int|
                0 <= i && i % 4 == 0 && rsds_at(image@, i) && (forall|j: int|
                    0 <= j < i && j % 4 == 0 ==> !rsds_at(image@, j)) ==> i + 24 > image@.len(),
        },
{
    let n = image.len();
    let mut i: usize = 0;
    while i < n
        invariant
            n == image@.len(),
            i % 4 == 0,
            forall|j: int| 0 <= j < i && j % 4 == 0 ==> !rsds_at(image@, j),
        decreases n - i,
    {
        if n - i >= 4 && image[i] == 0x52 && image[i + 1] == 0x53 && image[i + 2] == 0x44 && image[i
            + 3] == 0x53 {
            assert(rsds_at(image@, i as int));
            if n - i < 24 {
                proof {
                    assert forall|j: int| 0 <= j && j % 4 == 0 && rsds_at(image@, j) && (forall|k: int|
                        0 <= k < j && k % 4 == 0 ==> !rsds_at(image@, k)) implies j + 24 > image@.len() by {
                        if j < i {
                            assert(!rsds_at(image@, j));
                        }
                        if j > i {
                            assert(!rsds_at(image@, i as int));
                        }
                    }
                }
                return None;
            }
            let mut guid = [0u8; 16];
            let mut k: usize = 0;
            while k < 16
                invariant
                    n == image@.len(),
                    i + 24 <= n,
                    k <= 16,
                    guid@.len() == 16,
                    forall|j: int| 0 <= j < k ==> guid@[j] == image@[i + 4 + j],
                decreases 16 - k,
            {
                guid[k] = image[i + 4 + k];
                k += 1;
            }
            assert(guid@ =~= image@.subrange(i + 4, i + 20));
            let age = (image[i + 20] as u32) | ((image[i + 21] as u32) << 8u32) | ((image[i + 22] as u32)
                << 16u32) | ((image[i + 23] as u32) << 24u32);
            let id = CodeViewId { guid, age };
            assert(id.age == spec_le_u32_at(image@, i + 20));
            assert(id.guid@ == image@.subrange(i + 4, i + 20));
            return Some(id);
        }
        if n - i < 4 {
            proof {
                assert forall|j: int| 0 <= j && j % 4 == 0 && rsds_at(image@, j) && (forall|k: int|
                    0 <= k < j && k % 4 == 0 ==> !rsds_at(image@, k)) implies j + 24 > image@.len() by {
                    if j < i {
                        assert(!rsds_at(image@, j));
                    }
                }
            }
            return None;
        }
        i += 4;
    }
    None
}

/// GUID bytes in the order the symbol server spells them: the first three
/// groups are little-endian words.
pub fn guid_display_order(guid: &[u8; 16]) -> (r: [u8; 16])
    ensures
        r@ == seq![
            guid@[3], guid@[2], guid@[1], guid@[0], guid@[5], guid@[4], guid@[7], guid@[6],
            guid@[8], guid@[9], guid@[10], guid@[11], guid@[12], guid@[13], guid@[14], guid@[15],
        ],
{
    let r = [
        guid[3], guid[2], guid[1], guid[0], guid[5], guid[4], guid[7], guid[6], guid[8], guid[9],
        guid[10], guid[11], guid[12], guid[13], guid[14], guid[15],
    ];
    assert(r@ =~= seq![
        guid@[3], guid@[2], guid@[1], guid@[0], guid@[5], guid@[4], guid@[7], guid@[6],
        guid@[8], guid@[9], guid@[10], guid@[11], guid@[12], guid@[13], guid@[14], guid@[15],
    ]);
    r
}

} // verus!
