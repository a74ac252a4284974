use crate::errors::EmbedError;
use vstd::prelude::*;

verus! {

/// ASCII lowercasing of a single character; characters outside `'A'..='Z'`
/// are left as they are.
pub open spec fn lower_char(c: char) -> char {
    if 'A' <= c && c <= 'Z' {
        (((c as u8) + 32) as char)
    } else {
        c
    }
}

/// ASCII lowercasing of a character sequence.
pub open spec fn lower_of(s: Seq<char>) -> Seq<char> {
    s.map_values(|c: char| lower_char(c))
}

/// The fixed extension-to-MIME lookup table, keyed case-insensitively.
pub open spec fn mime_of(ext: Seq<char>) -> Option<Seq<char>> {
    let e = lower_of(ext);
    if e == "jpg"@ || e == "jpeg"@ {
        Some("image/jpeg"@)
    } else if e == "png"@ {
        Some("image/png"@)
    } else if e == "bmp"@ {
        Some("image/bmp"@)
    } else if e == "svg"@ {
        Some("image/svg+xml"@)
    } else if e == "gif"@ {
        Some("image/gif"@)
    } else if e == "tif"@ || e == "tiff"@ {
        Some("image/tiff"@)
    } else if e == "webp"@ {
        Some("image/webp"@)
    } else if e == "ico"@ {
        Some("image/vnd.microsoft.icon"@)
    } else {
        None
    }
}

/// The lookup is case-insensitive: an extension and its lowercased form
/// resolve to the same MIME entry.
pub proof fn lemma_mime_case_insensitive(ext: Seq<char>)
    ensures
        mime_of(lower_of(ext)) == mime_of(ext),
{
    assert(lower_of(lower_of(ext)) =~= lower_of(ext)) by {
        assert forall|j: int| 0 <= j < ext.len() implies lower_char(lower_char(ext[j]))
            == lower_char(ext[j]) by {
            let c = ext[j];
            if 'A' <= c && c <= 'Z' {
                assert(c as u8 <= 90);
                assert(!('A' <= lower_char(c) && lower_char(c) <= 'Z'));
            }
        }
    }
}

/// ASCII lowercasing of a single character.
fn to_lower_char(c: char) -> (r: char)
    ensures
        r == lower_char(c),
{
    if 'A' <= c && c <= 'Z' {
        ((c as u8) + 32) as char
    } else {
        c
    }
}

/// Whether `s`, lowercased, equals `t` (`t` is one of the lowercase table keys).
fn eq_lowered(s: &str, t: &str) -> (r: bool)
    ensures
        r == (lower_of(s@) == t@),
{
    let ns = s.unicode_len();
    let nt = t.unicode_len();
    if ns != nt {
        proof {
            assert(lower_of(s@).len() != t@.len());
        }
        return false;
    }
    let mut i: usize = 0;
    while i < ns
        invariant
            i <= ns,
            ns == s@.len(),
            nt == t@.len(),
            ns == nt,
            forall|j: int| 0 <= j < i ==> lower_char(s@[j]) == t@[j],
        decreases ns - i,
    {
        let cs = to_lower_char(s.get_char(i));
        let ct = t.get_char(i);
        if cs != ct {
            proof {
                assert(lower_of(s@)[i as int] != t@[i as int]);
            }
            return false;
        }
        i += 1;
    }
    proof {
        assert(lower_of(s@) =~= t@);
    }
    true
}

/// The MIME/content-type string for an image file extension, looked up
/// case-insensitively in the fixed table. An extension outside the table
/// is fatal: there is no generic-binary fallback.
pub fn determine_mime_type(extension: &str) -> (r: Result<String, EmbedError>)
    ensures
        match r {
            Ok(m) => mime_of(extension@) == Some(m@),
            Err(e) => e == EmbedError::UnsupportedExtension && mime_of(extension@) is None,
        },
{
    if eq_lowered(extension, "jpg") || eq_lowered(extension, "jpeg") {
        Ok("image/jpeg".to_owned())
    } else if eq_lowered(extension, "png") {
        Ok("image/png".to_owned())
    } else if eq_lowered(extension, "bmp") {
        Ok("image/bmp".to_owned())
    } else if eq_lowered(extension, "svg") {
        Ok("image/svg+xml".to_owned())
    } else if eq_lowered(extension, "gif") {
        Ok("image/gif".to_owned())
    } else if eq_lowered(extension, "tif") || eq_lowered(extension, "tiff") {
        Ok("image/tiff".to_owned())
    } else if eq_lowered(extension, "webp") {
        Ok("image/webp".to_owned())
    } else if eq_lowered(extension, "ico") {
        Ok("image/vnd.microsoft.icon".to_owned())
    } else {
        Err(EmbedError::UnsupportedExtension)
    }
}

} // verus!
