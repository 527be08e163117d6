use vstd::prelude::*;
use vstd::string::StrSliceExecFns;
use vstd::string::StringExecFns;

use crate::record::Memory;

verus! {

/// What `str::to_lowercase` returns for a given character sequence; the
/// result depends on the characters alone.
pub uninterp spec fn lower_case_of(s: Seq<char>) -> Seq<char>;

/// Relies on str::to_lowercase: the returned string is the Unicode
/// lowercase equivalent of the input, a function of its characters alone.
#[verifier::external_body]
fn to_lower(s: &str) -> (r: String)
    ensures
        r@ == lower_case_of(s@),
{
    s.to_lowercase()
}

/// The capture timestamp with every colon replaced by a hyphen, colons
/// being illegal in common filesystem paths.
pub open spec fn sanitized_date_spec(date: Seq<char>) -> Seq<char> {
    date.map_values(|c: char| if c == ':' { '-' } else { c })
}

/// The file extension chosen by the (case-folded) media kind.
pub open spec fn extension_spec(folded_kind: Seq<char>) -> Seq<char> {
    if folded_kind == "image"@ {
        "jpg"@
    } else if folded_kind == "video"@ {
        "mp4"@
    } else {
        "unknown"@
    }
}

/// The deterministic destination path of a record under a directory:
/// `<dir>/Memory <sanitized date>.<extension>`.
pub open spec fn filename_spec(memory: Memory, dir: Seq<char>) -> Seq<char> {
    dir + "/Memory "@ + sanitized_date_spec(memory.date@) + "."@ + extension_spec(
        lower_case_of(memory.media_type@),
    )
}

/// Create the destination filename from the date and media type of a
/// memory. Pure: no I/O, no failure path, and the same record and
/// directory always yield the same path.
pub fn create_filename(memory: &Memory, path: &str) -> (r: String)
    ensures
        r@ == filename_spec(*memory, path@),
{
    let mut out = String::from_str(path);
    out.append("/Memory ");
    let date = memory.date.as_str();
    let n = date.unicode_len();
    let mut i: usize = 0;
    while i < n
        invariant
            n == date@.len(),
            date@ == memory.date@,
            i <= n,
            out@ == path@ + "/Memory "@ + sanitized_date_spec(date@.take(i as int)),
        decreases n - i,
    {
        let c = date.get_char(i);
        let out_c = if c == ':' {
            '-'
        } else {
            c
        };
        crate::text::push_char(&mut out, out_c);
        proof {
            assert(sanitized_date_spec(date@.take(i + 1)) =~= sanitized_date_spec(
                date@.take(i as int),
            ).push(if date@[i as int] == ':' {
                '-'
            } else {
                date@[i as int]
            }));
        }
        i = i + 1;
    }
    proof {
        assert(date@.take(n as int) =~= date@);
    }
    out.append(".");
    let folded = to_lower(memory.media_type.as_str());
    let extension: &str = if folded == String::from_str("image") {
        "jpg"
    } else if folded == String::from_str("video") {
        "mp4"
    } else {
        "unknown"
    };
    out.append(extension);
    out
}

/// Filename determinism: the resolved path is a function of the record's
/// date and media type and of the directory alone, so two records that
/// agree on those fields resolve to the same path.
pub proof fn lemma_filename_deterministic(a: Memory, b: Memory, dir: Seq<char>)
    requires
        a.date@ == b.date@,
        a.media_type@ == b.media_type@,
    ensures
        filename_spec(a, dir) == filename_spec(b, dir),
{
}

/// Records that differ only in media kind never collide: whenever their
/// kinds map to distinct extensions, the resolved paths differ.
pub proof fn lemma_distinct_extensions_never_collide(a: Memory, b: Memory, dir: Seq<char>)
    requires
        a.date@ == b.date@,
        extension_spec(lower_case_of(a.media_type@)) != extension_spec(
            lower_case_of(b.media_type@),
        ),
    ensures
        filename_spec(a, dir) != filename_spec(b, dir),
{
    let prefix = dir + "/Memory "@ + sanitized_date_spec(a.date@) + "."@;
    let ea = extension_spec(lower_case_of(a.media_type@));
    let eb = extension_spec(lower_case_of(b.media_type@));
    assert(filename_spec(a, dir) =~= prefix + ea);
    assert(filename_spec(b, dir) =~= prefix + eb);
    if filename_spec(a, dir) == filename_spec(b, dir) {
        assert((prefix + ea).skip(prefix.len() as int) =~= ea);
        assert((prefix + eb).skip(prefix.len() as int) =~= eb);
        assert(ea == eb);
    }
}

} // verus!
