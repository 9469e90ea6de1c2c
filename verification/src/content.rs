//! Content-type inference for static files: the extension after the last
//! dot of the lookup key decides the type sent with the file's bytes.

use vstd::prelude::*;
use vstd::string::*;

verus! {

/// The extension of a lookup key: the characters after the last dot, or
/// nothing when the key has no dot.
pub open spec fn extension_of(key: Seq<char>) -> Option<Seq<char>>
    decreases key.len(),
{
    if key.len() == 0 {
        None
    } else if key.last() == '.' {
        Some(Seq::empty())
    } else {
        match extension_of(key.drop_last()) {
            Some(e) => Some(e.push(key.last())),
            None => None,
        }
    }
}

/// When the last dot of `key` stands at `d`, the extension is everything
/// after it.
proof fn lemma_extension_at(key: Seq<char>, d: int)
    requires
        0 <= d < key.len(),
        key[d] == '.',
        forall|j: int| d < j < key.len() ==> key[j] != '.',
    ensures
        extension_of(key) == Some(key.skip(d + 1)),
    decreases key.len(),
{
    if d == key.len() - 1 {
        assert(key.skip(d + 1) =~= Seq::<char>::empty());
    } else {
        lemma_extension_at(key.drop_last(), d);
        assert(key.skip(d + 1) =~= key.drop_last().skip(d + 1).push(key.last()));
    }
}

/// A key without a dot has no extension.
proof fn lemma_extension_none(key: Seq<char>)
    requires
        forall|j: int| 0 <= j < key.len() ==> key[j] != '.',
    ensures
        extension_of(key) is None,
    decreases key.len(),
{
    if key.len() > 0 {
        lemma_extension_none(key.drop_last());
    }
}

/// The content type inferred for a lookup key, by its extension; a key
/// without a recognised extension is served as plain bytes.
pub open spec fn content_type_of(key: Seq<char>) -> Seq<char> {
    match extension_of(key) {
        Some(e) => if e == "html"@ {
            "text/html"@
        } else if e == "css"@ {
            "text/css"@
        } else if e == "js"@ {
            "text/javascript"@
        } else if e == "png"@ {
            "image/png"@
        } else if e == "svg"@ {
            "image/svg+xml"@
        } else {
            "application/octet-stream"@
        },
        None => "application/octet-stream"@,
    }
}

/// Whether two strings hold the same characters.
pub fn str_eq(a: &str, b: &str) -> (r: bool)
    ensures
        r == (a@ == b@),
{
    let n = a.unicode_len();
    let m = b.unicode_len();
    if n != m {
        return false;
    }
    let mut i: usize = 0;
    while i < n
        invariant
            n == a@.len(),
            n == b@.len(),
            0 <= i <= n,
            forall|j: int| 0 <= j < i ==> a@[j] == b@[j],
        decreases n - i,
    {
        if a.get_char(i) != b.get_char(i) {
            return false;
        }
        i += 1;
    }
    proof {
        assert(a@ =~= b@);
    }
    true
}

/// Extracts the extension of a lookup key, exactly as `extension_of` states
/// it.
pub fn extension_for(key: &str) -> (r: Option<String>)
    ensures
        match r {
            Some(e) => extension_of(key@) == Some(e@),
            None => extension_of(key@) is None,
        },
{
    let n = key.unicode_len();
    let mut i: usize = n;
    while i > 0
        invariant
            n == key@.len(),
            0 <= i <= n,
            forall|j: int| i <= j < n ==> key@[j] != '.',
        decreases i,
    {
        if key.get_char(i - 1) == '.' {
            let ext = key.substring_char(i, n);
            proof {
                lemma_extension_at(key@, (i - 1) as int);
                assert(ext@ =~= key@.skip(i as int));
            }
            return Some(ext.to_owned());
        }
        i -= 1;
    }
    proof {
        lemma_extension_none(key@);
    }
    None
}

/// Infers the content type of a lookup key, exactly as `content_type_of`
/// states it.
pub fn content_type_for(key: &str) -> (r: String)
    ensures
        r@ == content_type_of(key@),
{
    match extension_for(key) {
        Some(e) => {
            let es = e.as_str();
            if str_eq(es, "html") {
                String::from_str("text/html")
            } else if str_eq(es, "css") {
                String::from_str("text/css")
            } else if str_eq(es, "js") {
                String::from_str("text/javascript")
            } else if str_eq(es, "png") {
                String::from_str("image/png")
            } else if str_eq(es, "svg") {
                String::from_str("image/svg+xml")
            } else {
                String::from_str("application/octet-stream")
            }
        },
        None => String::from_str("application/octet-stream"),
    }
}

} // verus!
