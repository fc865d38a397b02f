//! Container formats of Mega Drive ROM images, named by file extension.
use vstd::prelude::*;

verus! {

#[derive(Clone, Copy, Debug, PartialEq, Eq, Structural)]
pub enum Format {
    Bin,
    Smd,
    Md,
}

/// The extension that names each format.
pub open spec fn format_name(f: Format) -> Seq<char> {
    match f {
        Format::Bin => "bin"@,
        Format::Smd => "smd"@,
        Format::Md => "md"@,
    }
}

/// True iff the two strings hold the same characters.
fn same_text(a: &str, b: &str) -> (r: bool)
    ensures
        r == (a@ == b@),
{
    broadcast use vstd::utf8::encode_utf8_decode_utf8, vstd::utf8::encode_utf8_valid_utf8;

    let x = a.as_bytes();
    let y = b.as_bytes();
    proof {
        assert(x@ == vstd::utf8::encode_utf8(a@));
        assert(y@ == vstd::utf8::encode_utf8(b@));
        assert(vstd::utf8::decode_utf8(x@) == a@);
        assert(vstd::utf8::decode_utf8(y@) == b@);
    }
    if x.len() != y.len() {
        return false;
    }
    let mut i: usize = 0;
    while i < x.len()
        invariant
            x@ == vstd::utf8::encode_utf8(a@),
            y@ == vstd::utf8::encode_utf8(b@),
            x@.len() == y@.len(),
            i <= x@.len(),
            forall|j: int| 0 <= j < i ==> x@[j] == y@[j],
        decreases x@.len() - i,
    {
        if x[i] != y[i] {
            assert(x@ != y@);
            return false;
        }
        i += 1;
    }
    assert(x@ =~= y@);
    true
}

impl Format {
    /// The format that the extension `s` names, or an error for any other text.
    pub fn from_str(s: &str) -> (r: Result<Format, &'static str>)
        ensures
            r is Ok <==> (s@ == "bin"@ || s@ == "smd"@ || s@ == "md"@),
            r matches Ok(f) ==> format_name(f) == s@,
            r matches Err(e) ==> e@ == "invalid or unknown format"@,
    {
        if same_text(s, "bin") {
            Ok(Format::Bin)
        } else if same_text(s, "smd") {
            Ok(Format::Smd)
        } else if same_text(s, "md") {
            Ok(Format::Md)
        } else {
            Err("invalid or unknown format")
        }
    }

    /// The extension that names the format.
    pub fn name(&self) -> (r: &'static str)
        ensures
            r@ == format_name(*self),
    {
        match self {
            Format::Bin => "bin",
            Format::Smd => "smd",
            Format::Md => "md",
        }
    }
}

} // verus!
