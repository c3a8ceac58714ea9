use vstd::prelude::*;
use vstd::string::StrSliceExecFns;
use vstd::string::StringExecFns;

verus! {

/// Relies on std's String::push: appends one character at the end of the
/// string; the documentation promises nothing else.
pub assume_specification[ String::push ](s: &mut String, ch: char)
    ensures
        final(s)@ == old(s)@.push(ch),
;

/// The nine characters that may not appear in a file base name.
pub open spec fn spec_denied(c: char) -> bool {
    ||| c == '/'
    ||| c == '\\'
    ||| c == ':'
    ||| c == '*'
    ||| c == '?'
    ||| c == '"'
    ||| c == '<'
    ||| c == '>'
    ||| c == '|'
}

pub fn denied(c: char) -> (r: bool)
    ensures
        r == spec_denied(c),
{
    c == '/' || c == '\\' || c == ':' || c == '*' || c == '?' || c == '"' || c == '<' || c == '>'
        || c == '|'
}

/// Spaces become underscores; every other character stands as it is.
pub open spec fn spec_tidy(c: char) -> char {
    if c == ' ' {
        '_'
    } else {
        c
    }
}

/// A character that sanitization leaves alone: not a space and not on
/// the denylist.
pub open spec fn spec_clean(c: char) -> bool {
    c != ' ' && !spec_denied(c)
}

/// The sanitization policy: replace every space with an underscore, then
/// strip every denylisted character.
pub open spec fn spec_sanitize(s: Seq<char>) -> Seq<char>
    decreases s.len(),
{
    if s.len() == 0 {
        Seq::empty()
    } else {
        let p = spec_sanitize(s.drop_last());
        let c = spec_tidy(s.last());
        if spec_denied(c) {
            p
        } else {
            p.push(c)
        }
    }
}

/// Every character of a sanitized name is clean: sanitization leaves no
/// space and none of the nine denylisted characters in its output.
pub proof fn lemma_sanitize_clean(s: Seq<char>)
    ensures
        forall|i: int| 0 <= i < spec_sanitize(s).len() ==> spec_clean(#[trigger] spec_sanitize(s)[i]),
    decreases s.len(),
{
    if s.len() > 0 {
        lemma_sanitize_clean(s.drop_last());
        let p = spec_sanitize(s.drop_last());
        let c = spec_tidy(s.last());
        assert(c != ' ');
        if !spec_denied(c) {
            assert(spec_sanitize(s) == p.push(c));
            assert forall|i: int| 0 <= i < p.push(c).len() implies spec_clean(
                #[trigger] p.push(c)[i],
            ) by {
                if i < p.len() {
                    assert(p.push(c)[i] == p[i]);
                } else {
                    assert(p.push(c)[i] == c);
                }
            }
        }
    }
}

/// Sanitization does not touch a name whose characters are all clean.
pub proof fn lemma_sanitize_identity_on_clean(s: Seq<char>)
    requires
        forall|i: int| 0 <= i < s.len() ==> spec_clean(#[trigger] s[i]),
    ensures
        spec_sanitize(s) == s,
    decreases s.len(),
{
    if s.len() == 0 {
        assert(spec_sanitize(s) =~= s);
    } else {
        lemma_sanitize_identity_on_clean(s.drop_last());
        assert(spec_clean(s.last()));
        assert(spec_sanitize(s) =~= s.drop_last().push(s.last()));
        assert(s.drop_last().push(s.last()) =~= s);
    }
}

/// Sanitization is idempotent, and its output holds none of the nine
/// denylisted characters.
pub proof fn lemma_sanitize_idempotent(s: Seq<char>)
    ensures
        spec_sanitize(spec_sanitize(s)) == spec_sanitize(s),
        forall|i: int| 0 <= i < spec_sanitize(s).len() ==> !spec_denied(
            #[trigger] spec_sanitize(s)[i],
        ),
{
    lemma_sanitize_clean(s);
    lemma_sanitize_identity_on_clean(spec_sanitize(s));
}

/// Derives a filesystem-safe base name from a resolved title.
pub fn sanitize(title: &str) -> (r: String)
    ensures
        r@ == spec_sanitize(title@),
{
    let n = title.unicode_len();
    let mut out = String::new();
    let mut i: usize = 0;
    while i < n
        invariant
            n == title@.len(),
            i <= n,
            out@ == spec_sanitize(title@.subrange(0, i as int)),
        decreases n - i,
    {
        let c = title.get_char(i);
        let c2 = if c == ' ' {
            '_'
        } else {
            c
        };
        proof {
            assert(title@.subrange(0, i + 1 as int).drop_last() =~= title@.subrange(0, i as int));
            assert(title@.subrange(0, i + 1 as int).last() == title@[i as int]);
        }
        if !denied(c2) {
            out.push(c2);
        }
        i = i + 1;
    }
    proof {
        assert(title@.subrange(0, n as int) =~= title@);
    }
    out
}

/// The target file name: the sanitized resolved title with the fixed
/// audio extension appended, or a fixed fallback when no title was
/// resolved.
pub fn get_filename(title: &Option<String>) -> (r: String)
    ensures
        match title {
            Some(t) => r@ == spec_sanitize(t@) + ".mp3"@,
            None => r@ == "soundcloud.mp3"@,
        },
{
    match title {
        Some(t) => {
            let mut s = sanitize(t.as_str());
            s.append(".mp3");
            s
        },
        None => String::from_str("soundcloud.mp3"),
    }
}

/// The download directory: the one the caller chose, or the given
/// default where none was chosen.
pub fn get_filepath(dir: &Option<String>, default_dir: &String) -> (r: String)
    ensures
        match dir {
            Some(d) => r@ == d@,
            None => r@ == default_dir@,
        },
{
    match dir {
        Some(d) => d.clone(),
        None => default_dir.clone(),
    }
}

} // verus!
