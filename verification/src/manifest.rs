use vstd::prelude::*;
use vstd::string::StrSliceExecFns;
use vstd::string::StringSliceAdditionalSpecFns;

verus! {

/// Left-to-right, non-overlapping replacement of every occurrence of
/// `pat` in `s` by `rep`. An empty pattern leaves the text unchanged.
pub open spec fn replace_spec(s: Seq<u8>, pat: Seq<u8>, rep: Seq<u8>) -> Seq<u8>
    decreases s.len(),
{
    if pat.len() == 0 || s.len() < pat.len() {
        s
    } else if s.take(pat.len() as int) == pat {
        rep + replace_spec(s.skip(pat.len() as int), pat, rep)
    } else {
        seq![s[0]] + replace_spec(s.skip(1), pat, rep)
    }
}

/// Whether `pat` occurs in `s` at position `at`.
fn matches_at(s: &Vec<u8>, pat: &Vec<u8>, at: usize) -> (r: bool)
    requires
        at + pat@.len() <= s@.len(),
    ensures
        r == (s@.subrange(at as int, at + pat@.len()) == pat@),
{
    let n = s.len();
    let mut j: usize = 0;
    while j < pat.len()
        invariant
            j <= pat@.len(),
            at + pat@.len() <= s@.len(),
            n == s@.len(),
            forall|k: int| 0 <= k < j ==> s@[at + k] == pat@[k],
        decreases pat@.len() - j,
    {
        if s[at + j] != pat[j] {
            proof {
                assert(s@.subrange(at as int, at + pat@.len())[j as int] == s@[at + j]);
            }
            return false;
        }
        j = j + 1;
    }
    proof {
        assert(s@.subrange(at as int, at + pat@.len()) =~= pat@);
    }
    true
}

/// Replace every occurrence of `pat` in `s` by `rep`, scanning left to
/// right without overlap, exactly as `replace_spec` states.
pub fn replace_bytes(s: &Vec<u8>, pat: &Vec<u8>, rep: &Vec<u8>) -> (r: Vec<u8>)
    ensures
        r@ == replace_spec(s@, pat@, rep@),
{
    let mut out: Vec<u8> = Vec::new();
    if pat.len() == 0 {
        let mut i: usize = 0;
        while i < s.len()
            invariant
                i <= s@.len(),
                out@ == s@.take(i as int),
            decreases s@.len() - i,
        {
            out.push(s[i]);
            proof {
                assert(s@.take(i + 1) =~= s@.take(i as int).push(s@[i as int]));
            }
            i = i + 1;
        }
        proof {
            assert(s@.take(s@.len() as int) =~= s@);
        }
        return out;
    }
    proof {
        assert(s@.skip(0) =~= s@);
        assert(out@ + replace_spec(s@, pat@, rep@) =~= replace_spec(s@, pat@, rep@));
    }
    let mut i: usize = 0;
    while i < s.len()
        invariant
            i <= s@.len(),
            pat@.len() >= 1,
            replace_spec(s@, pat@, rep@) == out@ + replace_spec(s@.skip(i as int), pat@, rep@),
        decreases s@.len() - i,
    {
        let ghost i0 = i as int;
        let ghost rest = s@.skip(i0);
        if pat.len() <= s.len() - i && matches_at(s, pat, i) {
            proof {
                assert(rest.take(pat@.len() as int) =~= s@.subrange(i0, i0 + pat@.len()));
                assert(replace_spec(rest, pat@, rep@) == rep@ + replace_spec(
                    rest.skip(pat@.len() as int),
                    pat@,
                    rep@,
                ));
                assert(rest.skip(pat@.len() as int) =~= s@.skip(i0 + pat@.len()));
            }
            let ghost out0 = out@;
            let mut j: usize = 0;
            while j < rep.len()
                invariant
                    j <= rep@.len(),
                    out@ == out0 + rep@.take(j as int),
                decreases rep@.len() - j,
            {
                out.push(rep[j]);
                proof {
                    assert(out0 + rep@.take(j + 1) =~= (out0 + rep@.take(j as int)).push(
                        rep@[j as int],
                    ));
                }
                j = j + 1;
            }
            proof {
                assert(rep@.take(rep@.len() as int) =~= rep@);
                assert((out0 + rep@) + replace_spec(s@.skip(i0 + pat@.len()), pat@, rep@) =~= out0
                    + (rep@ + replace_spec(s@.skip(i0 + pat@.len()), pat@, rep@)));
            }
            i = i + pat.len();
        } else {
            proof {
                if rest.len() < pat@.len() {
                    assert(replace_spec(rest, pat@, rep@) == rest);
                    assert(s@.skip(i0 + 1) =~= rest.skip(1));
                    assert(replace_spec(rest.skip(1), pat@, rep@) == rest.skip(1));
                    assert(rest =~= seq![rest[0]] + rest.skip(1));
                } else {
                    assert(rest.take(pat@.len() as int) =~= s@.subrange(i0, i0 + pat@.len()));
                    assert(rest.take(pat@.len() as int) != pat@);
                    assert(replace_spec(rest, pat@, rep@) == seq![rest[0]] + replace_spec(
                        rest.skip(1),
                        pat@,
                        rep@,
                    ));
                    assert(s@.skip(i0 + 1) =~= rest.skip(1));
                }
                assert(rest[0] == s@[i0]);
                assert((out@ + seq![s@[i0]]) + replace_spec(s@.skip(i0 + 1), pat@, rep@) =~= out@
                    + (seq![s@[i0]] + replace_spec(s@.skip(i0 + 1), pat@, rep@)));
            }
            out.push(s[i]);
            i = i + 1;
        }
    }
    proof {
        assert(s@.skip(s@.len() as int) =~= Seq::<u8>::empty());
        assert(out@ + Seq::<u8>::empty() =~= out@);
    }
    out
}

/// How many bytes of object wrapper precede the record array in the
/// manifest text.
pub const MANIFEST_HEADER_LEN: usize = 16;

/// The manifest text with its object wrapper stripped — the header before
/// the record array and the closing brace after it — and the archive's
/// field names and kind labels rewritten to the record schema, in the
/// order the rewriting is applied.
pub open spec fn remap_spec(s: Seq<u8>) -> Seq<u8>
    recommends
        s.len() > MANIFEST_HEADER_LEN,
{
    let body = s.subrange(MANIFEST_HEADER_LEN as int, s.len() - 1);
    replace_spec(
        replace_spec(
            replace_spec(
                replace_spec(
                    replace_spec(body, "Date".spec_bytes(), "date".spec_bytes()),
                    "Media Type".spec_bytes(),
                    "media_type".spec_bytes(),
                ),
                "Download Link".spec_bytes(),
                "download_link".spec_bytes(),
            ),
            "Image".spec_bytes(),
            "image".spec_bytes(),
        ),
        "Video".spec_bytes(),
        "video".spec_bytes(),
    )
}

/// Strip the manifest's object wrapper and rewrite the archive's field
/// names and kind labels to the record schema, so the remaining text is
/// the record array ready for deserialization. Text too short to hold the
/// wrapper is rejected as malformed.
pub fn remap_manifest(contents: &Vec<u8>) -> (r: Result<Vec<u8>, &'static str>)
    ensures
        contents@.len() > MANIFEST_HEADER_LEN ==> (r matches Ok(out) && out@ == remap_spec(
            contents@,
        )),
        contents@.len() <= MANIFEST_HEADER_LEN ==> (r matches Err(e) && e@
            == "Manifest JSON is malformed."@),
{
    if contents.len() <= MANIFEST_HEADER_LEN {
        return Err("Manifest JSON is malformed.");
    }
    let end = contents.len() - 1;
    let mut body: Vec<u8> = Vec::new();
    let mut i: usize = MANIFEST_HEADER_LEN;
    while i < end
        invariant
            MANIFEST_HEADER_LEN <= i <= end,
            end == contents@.len() - 1,
            contents@.len() > MANIFEST_HEADER_LEN,
            body@ == contents@.subrange(MANIFEST_HEADER_LEN as int, i as int),
        decreases end - i,
    {
        body.push(contents[i]);
        proof {
            assert(contents@.subrange(MANIFEST_HEADER_LEN as int, i + 1) =~= contents@.subrange(
                MANIFEST_HEADER_LEN as int,
                i as int,
            ).push(contents@[i as int]));
        }
        i = i + 1;
    }
    let step_date = replace_bytes(&body, &"Date".as_bytes_vec(), &"date".as_bytes_vec());
    let step_media = replace_bytes(
        &step_date,
        &"Media Type".as_bytes_vec(),
        &"media_type".as_bytes_vec(),
    );
    let step_link = replace_bytes(
        &step_media,
        &"Download Link".as_bytes_vec(),
        &"download_link".as_bytes_vec(),
    );
    let step_image = replace_bytes(&step_link, &"Image".as_bytes_vec(), &"image".as_bytes_vec());
    let step_video = replace_bytes(&step_image, &"Video".as_bytes_vec(), &"video".as_bytes_vec());
    Ok(step_video)
}

} // verus!
