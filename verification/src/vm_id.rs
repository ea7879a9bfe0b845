//! The stable identifier of a VM.

use vstd::prelude::*;

verus! {

/// Whether a character may appear in the hexadecimal part of a UUID.
pub open spec fn is_lower_hex(c: char) -> bool {
    (48 <= c as u32 <= 57) || (97 <= c as u32 <= 102)
}

/// Whether a character sequence is a hyphenated lower-case UUID:
/// thirty-six characters with hyphens at the four usual positions and
/// lower-case hexadecimal digits everywhere else.
pub open spec fn spec_is_uuid(s: Seq<char>) -> bool {
    s.len() == 36 && forall|i: int|
        0 <= i < 36 ==> (if i == 8 || i == 13 || i == 18 || i == 23 {
            s[i] == '-'
        } else {
            is_lower_hex(#[trigger] s[i])
        })
}

/// A 128-bit UUID in its hyphenated lower-case string form. It is stable
/// for the lifetime of a VM, names the per-VM chroot subtree and is handed
/// to the jailer as its id argument.
#[derive(Debug)]
pub struct VmId {
    id: String,
}

impl View for VmId {
    type V = Seq<char>;

    closed spec fn view(&self) -> Seq<char> {
        self.id@
    }
}

/// Relies on `uuid::Uuid::new_v4` and the `Display` of `uuid::Uuid`, which
/// writes the lower-case hyphenated form.
#[verifier::external_body]
fn random_uuid_string() -> (r: String)
    ensures
        spec_is_uuid(r@),
{
    uuid::Uuid::new_v4().to_string()
}

impl VmId {
    #[verifier::type_invariant]
    spec fn type_wf(self) -> bool {
        spec_is_uuid(self.id@)
    }

    /// Generates a fresh random identifier.
    pub fn generate() -> (r: VmId)
        ensures
            spec_is_uuid(r@),
    {
        VmId { id: random_uuid_string() }
    }

    /// Accepts a hyphenated lower-case UUID string as an identifier and
    /// rejects anything else.
    pub fn parse(s: &str) -> (r: Option<VmId>)
        ensures
            (r is Some) == spec_is_uuid(s@),
            r matches Some(v) ==> v@ == s@,
    {
        let len = s.unicode_len();
        if len != 36 {
            return None;
        }
        let mut i: usize = 0;
        while i < 36
            invariant
                i <= 36,
                s@.len() == 36,
                forall|k: int|
                    0 <= k < i ==> (if k == 8 || k == 13 || k == 18 || k == 23 {
                        s@[k] == '-'
                    } else {
                        is_lower_hex(#[trigger] s@[k])
                    }),
            decreases 36 - i,
        {
            let c = s.get_char(i);
            let v = c as u32;
            if i == 8 || i == 13 || i == 18 || i == 23 {
                if c != '-' {
                    return None;
                }
            } else {
                if !((48 <= v && v <= 57) || (97 <= v && v <= 102)) {
                    return None;
                }
            }
            i = i + 1;
        }
        Some(VmId { id: s.to_owned() })
    }

    /// The identifier as a string.
    pub fn as_str(&self) -> (r: &str)
        ensures
            r@ == self@,
            spec_is_uuid(self@),
    {
        proof {
            use_type_invariant(&*self);
        }
        self.id.as_str()
    }
}

} // verus!
