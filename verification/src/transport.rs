use vstd::prelude::*;
use vstd::string::StrSliceExecFns;
use vstd::string::StringExecFns;

use crate::types::DownloadError;

verus! {

/// The prefix of `s` before the first occurrence of `c`, or all of `s`
/// where `c` does not occur.
pub open spec fn spec_before(s: Seq<char>, c: char) -> Seq<char>
    decreases s.len(),
{
    if s.len() == 0 {
        Seq::empty()
    } else if s[0] == c {
        Seq::empty()
    } else {
        seq![s[0]] + spec_before(s.drop_first(), c)
    }
}

/// The suffix of `s` after the first occurrence of `c`, or nothing where
/// `c` does not occur.
pub open spec fn spec_after(s: Seq<char>, c: char) -> Option<Seq<char>>
    decreases s.len(),
{
    if s.len() == 0 {
        None
    } else if s[0] == c {
        Some(s.drop_first())
    } else {
        spec_after(s.drop_first(), c)
    }
}

pub proof fn lemma_after_shorter(s: Seq<char>, c: char)
    ensures
        spec_after(s, c) matches Some(t) ==> t.len() < s.len(),
    decreases s.len(),
{
    if s.len() > 0 && s[0] != c {
        lemma_after_shorter(s.drop_first(), c);
    }
}

/// Where the characters of `s` up to `i` avoid `c`, and `s[i]` is `c`
/// (or `i` is the length and `c` does not occur), the two split halves
/// are the subranges around `i`.
pub proof fn lemma_split_at(s: Seq<char>, c: char, i: int)
    requires
        0 <= i <= s.len(),
        forall|j: int| 0 <= j < i ==> s[j] != c,
        i < s.len() ==> s[i] == c,
    ensures
        i < s.len() ==> spec_before(s, c) == s.subrange(0, i) && spec_after(s, c) == Some(
            s.subrange(i + 1, s.len() as int),
        ),
        i == s.len() ==> spec_before(s, c) == s && spec_after(s, c) is None,
    decreases s.len(),
{
    if s.len() == 0 {
        assert(spec_before(s, c) =~= s);
    } else if i == 0 {
        assert(s[0] == c);
        assert(spec_before(s, c) =~= s.subrange(0, 0));
        assert(s.drop_first() =~= s.subrange(1, s.len() as int));
    } else {
        let t = s.drop_first();
        assert forall|j: int| 0 <= j < i - 1 implies t[j] != c by {
            assert(t[j] == s[j + 1]);
        }
        lemma_split_at(t, c, i - 1);
        if i < s.len() {
            assert(t[i - 1] == s[i]);
            assert(spec_before(s, c) =~= seq![s[0]] + t.subrange(0, i - 1));
            assert(seq![s[0]] + t.subrange(0, i - 1) =~= s.subrange(0, i));
            assert(t.subrange(i, t.len() as int) =~= s.subrange(i + 1, s.len() as int));
        } else {
            assert(spec_before(s, c) =~= seq![s[0]] + t);
            assert(seq![s[0]] + t =~= s);
        }
    }
}

fn find_char(s: &str, c: char) -> (r: Option<usize>)
    ensures
        match r {
            Some(i) => i < s@.len() && s@[i as int] == c && forall|j: int| 0 <= j < i ==> s@[j] != c,
            None => forall|j: int| 0 <= j < s@.len() ==> s@[j] != c,
        },
{
    let n = s.unicode_len();
    let mut i: usize = 0;
    while i < n
        invariant
            n == s@.len(),
            i <= n,
            forall|j: int| 0 <= j < i ==> s@[j] != c,
        decreases n - i,
    {
        if s.get_char(i) == c {
            return Some(i);
        }
        i = i + 1;
    }
    None
}

fn before_char(s: &str, c: char) -> (r: String)
    ensures
        r@ == spec_before(s@, c),
{
    match find_char(s, c) {
        Some(i) => {
            proof {
                lemma_split_at(s@, c, i as int);
            }
            String::from_str(s.substring_char(0, i))
        },
        None => {
            proof {
                lemma_split_at(s@, c, s@.len() as int);
            }
            String::from_str(s)
        },
    }
}

fn after_char(s: &str, c: char) -> (r: Option<String>)
    ensures
        match r {
            Some(t) => spec_after(s@, c) == Some(t@),
            None => spec_after(s@, c) is None,
        },
{
    match find_char(s, c) {
        Some(i) => {
            let n = s.unicode_len();
            proof {
                lemma_split_at(s@, c, i as int);
            }
            Some(String::from_str(s.substring_char(i + 1, n)))
        },
        None => {
            proof {
                lemma_split_at(s@, c, s@.len() as int);
            }
            None
        },
    }
}

/// The value of the first `url` parameter of a query string: pairs are
/// split on `&`, each pair at its first `=` (no `=` means an empty
/// value).
pub open spec fn spec_url_param(q: Seq<char>) -> Option<Seq<char>>
    decreases q.len(),
    via spec_url_param_decreases
{
    let pair = spec_before(q, '&');
    let key = spec_before(pair, '=');
    if key == "url"@ {
        match spec_after(pair, '=') {
            Some(v) => Some(v),
            None => Some(Seq::empty()),
        }
    } else {
        match spec_after(q, '&') {
            Some(rest) => spec_url_param(rest),
            None => None,
        }
    }
}

#[via_fn]
proof fn spec_url_param_decreases(q: Seq<char>) {
    lemma_after_shorter(q, '&');
}

fn url_param(q: &str) -> (r: Option<String>)
    ensures
        match r {
            Some(v) => spec_url_param(q@) == Some(v@),
            None => spec_url_param(q@) is None,
        },
{
    let mut rem = String::from_str(q);
    loop
        invariant
            spec_url_param(q@) == spec_url_param(rem@),
        decreases rem@.len(),
    {
        let pair = before_char(rem.as_str(), '&');
        let key = before_char(pair.as_str(), '=');
        let url_lit = String::from_str("url");
        if key.eq(&url_lit) {
            let value = match after_char(pair.as_str(), '=') {
                Some(v) => v,
                None => String::new(),
            };
            return Some(value);
        }
        match after_char(rem.as_str(), '&') {
            Some(rest) => {
                proof {
                    lemma_after_shorter(rem@, '&');
                }
                rem = rest;
            },
            None => {
                return None;
            },
        }
    }
}

/// The escaping that keeps a parameter value from breaking the query
/// apart: the escape character and the pair separator become their
/// percent escapes; every other character stands as it is.
pub open spec fn spec_encode_param(s: Seq<char>) -> Seq<char>
    decreases s.len(),
{
    if s.len() == 0 {
        Seq::empty()
    } else {
        let rest = spec_encode_param(s.drop_first());
        if s[0] == '%' {
            "%25"@ + rest
        } else if s[0] == '&' {
            "%26"@ + rest
        } else {
            seq![s[0]] + rest
        }
    }
}

/// The undoing of that escaping: the two percent escapes become their
/// characters again, left to right; everything else stands as it is.
pub open spec fn spec_decode_param(s: Seq<char>) -> Seq<char>
    decreases s.len(),
{
    if s.len() == 0 {
        Seq::empty()
    } else if s.len() >= 3 && s[0] == '%' && s[1] == '2' && s[2] == '5' {
        seq!['%'] + spec_decode_param(s.skip(3))
    } else if s.len() >= 3 && s[0] == '%' && s[1] == '2' && s[2] == '6' {
        seq!['&'] + spec_decode_param(s.skip(3))
    } else {
        seq![s[0]] + spec_decode_param(s.skip(1))
    }
}

/// An escaped value holds no pair separator: splitting the query on `&`
/// cannot cut through it.
pub proof fn lemma_encode_no_separator(s: Seq<char>)
    ensures
        forall|i: int| 0 <= i < spec_encode_param(s).len() ==> (#[trigger] spec_encode_param(s)[i])
            != '&',
    decreases s.len(),
{
    reveal_strlit("%25");
    reveal_strlit("%26");
    if s.len() > 0 {
        lemma_encode_no_separator(s.drop_first());
        let rest = spec_encode_param(s.drop_first());
        let e = spec_encode_param(s);
        let head: Seq<char> = if s[0] == '%' {
            "%25"@
        } else if s[0] == '&' {
            "%26"@
        } else {
            seq![s[0]]
        };
        assert(e == head + rest);
        assert forall|i: int| 0 <= i < e.len() implies (#[trigger] e[i]) != '&' by {
            if i < head.len() {
                assert(e[i] == head[i]);
            } else {
                assert(e[i] == rest[i - head.len()]);
            }
        }
    }
}

/// Decoding undoes encoding: the escaped form of any value reads back
/// as the value itself.
pub proof fn lemma_decode_of_encode(s: Seq<char>)
    ensures
        spec_decode_param(spec_encode_param(s)) == s,
    decreases s.len(),
{
    reveal_strlit("%25");
    reveal_strlit("%26");
    if s.len() == 0 {
        assert(spec_decode_param(spec_encode_param(s)) =~= s);
    } else {
        lemma_decode_of_encode(s.drop_first());
        let rest = spec_encode_param(s.drop_first());
        let e = spec_encode_param(s);
        if s[0] == '%' {
            assert(e == "%25"@ + rest);
            assert(e.len() >= 3 && e[0] == '%' && e[1] == '2' && e[2] == '5');
            assert(e.skip(3) =~= rest);
            assert(spec_decode_param(e) == seq!['%'] + spec_decode_param(rest));
            assert(seq!['%'] + s.drop_first() =~= s);
        } else if s[0] == '&' {
            assert(e == "%26"@ + rest);
            assert(e.len() >= 3 && e[0] == '%' && e[1] == '2' && e[2] == '6');
            assert(e.skip(3) =~= rest);
            assert(spec_decode_param(e) == seq!['&'] + spec_decode_param(rest));
            assert(seq!['&'] + s.drop_first() =~= s);
        } else {
            assert(e == seq![s[0]] + rest);
            assert(e[0] == s[0]);
            assert(e[0] != '%');
            assert(e.skip(1) =~= rest);
            assert(spec_decode_param(e) == seq![s[0]] + spec_decode_param(rest));
            assert(seq![s[0]] + s.drop_first() =~= s);
        }
    }
}

/// Escapes one parameter value for use in a query string.
pub fn encode_param(s: &str) -> (r: String)
    ensures
        r@ == spec_encode_param(s@),
{
    let n = s.unicode_len();
    let mut out = String::new();
    let mut i: usize = 0;
    proof {
        assert(s@.skip(0) =~= s@);
        assert(Seq::<char>::empty() + spec_encode_param(s@) =~= spec_encode_param(s@));
    }
    while i < n
        invariant
            n == s@.len(),
            i <= n,
            spec_encode_param(s@) == out@ + spec_encode_param(s@.skip(i as int)),
        decreases n - i,
    {
        let c = s.get_char(i);
        proof {
            reveal_strlit("%25");
            reveal_strlit("%26");
            let rest = s@.skip(i as int);
            assert(rest[0] == s@[i as int]);
            assert(rest.drop_first() =~= s@.skip(i + 1 as int));
            let head: Seq<char> = if rest[0] == '%' {
                "%25"@
            } else if rest[0] == '&' {
                "%26"@
            } else {
                seq![rest[0]]
            };
            assert(spec_encode_param(rest) == head + spec_encode_param(rest.drop_first()));
            assert(out@ + (head + spec_encode_param(rest.drop_first())) =~= (out@ + head)
                + spec_encode_param(rest.drop_first()));
            assert(out@ + seq![rest[0]] =~= out@.push(rest[0]));
        }
        if c == '%' {
            out.append("%25");
        } else if c == '&' {
            out.append("%26");
        } else {
            out.push(c);
        }
        i = i + 1;
    }
    proof {
        assert(s@.skip(n as int) =~= Seq::<char>::empty());
        assert(out@ + Seq::<char>::empty() =~= out@);
    }
    out
}

fn matches_escape_at(s: &str, i: usize, third: char) -> (b: bool)
    requires
        i + 3 <= s@.len(),
        s@.len() <= usize::MAX,
    ensures
        b == (s@[i as int] == '%' && s@[i as int + 1] == '2' && s@[i as int + 2] == third),
{
    s.get_char(i) == '%' && s.get_char(i + 1) == '2' && s.get_char(i + 2) == third
}

/// Undoes the escaping of one parameter value.
pub fn decode_param(s: &str) -> (r: String)
    ensures
        r@ == spec_decode_param(s@),
{
    let n = s.unicode_len();
    let mut out = String::new();
    let mut i: usize = 0;
    proof {
        assert(s@.skip(0) =~= s@);
        assert(Seq::<char>::empty() + spec_decode_param(s@) =~= spec_decode_param(s@));
    }
    while i < n
        invariant
            n == s@.len(),
            i <= n,
            spec_decode_param(s@) == out@ + spec_decode_param(s@.skip(i as int)),
        decreases n - i,
    {
        let room = n - i >= 3;
        let hit5 = if room {
            matches_escape_at(s, i, '5')
        } else {
            false
        };
        let hit6 = if room {
            matches_escape_at(s, i, '6')
        } else {
            false
        };
        proof {
            let rest = s@.skip(i as int);
            assert(rest[0] == s@[i as int]);
            if rest.len() >= 1 {
                assert(rest.skip(1) =~= s@.skip(i + 1 as int));
            }
            if rest.len() >= 3 {
                assert(rest[1] == s@[i as int + 1]);
                assert(rest[2] == s@[i as int + 2]);
                assert(rest.skip(3) =~= s@.skip(i + 3 as int));
            }
            let head: Seq<char> = if hit5 {
                seq!['%']
            } else if hit6 {
                seq!['&']
            } else {
                seq![rest[0]]
            };
            let tail: Seq<char> = if hit5 || hit6 {
                spec_decode_param(s@.skip(i + 3 as int))
            } else {
                spec_decode_param(s@.skip(i + 1 as int))
            };
            assert(spec_decode_param(rest) == head + tail);
            assert(out@ + (head + tail) =~= (out@ + head) + tail);
            assert(out@ + seq![rest[0]] =~= out@.push(s@[i as int]));
            assert(out@ + seq!['%'] =~= out@.push('%'));
            assert(out@ + seq!['&'] =~= out@.push('&'));
        }
        if hit5 {
            out.push('%');
            i = i + 3;
        } else if hit6 {
            out.push('&');
            i = i + 3;
        } else {
            let c = s.get_char(i);
            out.push(c);
            i = i + 1;
        }
    }
    proof {
        assert(s@.skip(n as int) =~= Seq::<char>::empty());
        assert(out@ + Seq::<char>::empty() =~= out@);
    }
    out
}

/// The human-meaningful source URL carried by a failed request: the
/// unescaped value of the `url` parameter of its query string, falling
/// back to the raw request URL where that parameter is absent.
pub open spec fn spec_extract(u: Seq<char>) -> Seq<char> {
    match spec_after(u, '?') {
        Some(q) => match spec_url_param(q) {
            Some(v) => spec_decode_param(v),
            None => u,
        },
        None => u,
    }
}

pub fn extract_soundcloud_url(u: &str) -> (r: String)
    ensures
        r@ == spec_extract(u@),
{
    match after_char(u, '?') {
        Some(q) => match url_param(q.as_str()) {
            Some(v) => decode_param(v.as_str()),
            None => String::from_str(u),
        },
        None => String::from_str(u),
    }
}

/// The resolution request: the fixed endpoint with the source URL and
/// the client credential as escaped query parameters.
pub open spec fn spec_resolve_url(endpoint: Seq<char>, source: Seq<char>, client_id: Seq<char>) -> Seq<
    char,
> {
    endpoint + "?url="@ + spec_encode_param(source) + "&client_id="@ + spec_encode_param(client_id)
}

pub fn resolve_request_url(endpoint: &str, source_url: &str, client_id: &str) -> (r: String)
    ensures
        r@ == spec_resolve_url(endpoint@, source_url@, client_id@),
{
    let mut r = String::from_str(endpoint);
    r.append("?url=");
    r.append(encode_param(source_url).as_str());
    r.append("&client_id=");
    r.append(encode_param(client_id).as_str());
    proof {
        assert(r@ =~= spec_resolve_url(endpoint@, source_url@, client_id@));
    }
    r
}

/// The stream-link exchange request: the selected transcoding's exchange
/// URL with the client credential as its escaped query parameter.
pub open spec fn spec_exchange_url(transcoding_url: Seq<char>, client_id: Seq<char>) -> Seq<char> {
    transcoding_url + "?client_id="@ + spec_encode_param(client_id)
}

pub fn exchange_request_url(transcoding_url: &str, client_id: &str) -> (r: String)
    ensures
        r@ == spec_exchange_url(transcoding_url@, client_id@),
{
    let mut r = String::from_str(transcoding_url);
    r.append("?client_id=");
    r.append(encode_param(client_id).as_str());
    proof {
        assert(r@ =~= spec_exchange_url(transcoding_url@, client_id@));
    }
    r
}

/// Extraction undoes building: the URL parameter read back out of a
/// resolution request is exactly the source URL that went in, for every
/// source URL, as long as the endpoint carries no query of its own.
pub proof fn lemma_extract_of_resolve_url(endpoint: Seq<char>, source: Seq<char>, client_id: Seq<char>)
    requires
        !endpoint.contains('?'),
    ensures
        spec_extract(spec_resolve_url(endpoint, source, client_id)) == source,
{
    reveal_strlit("?url=");
    reveal_strlit("&client_id=");
    reveal_strlit("url");
    lemma_encode_no_separator(source);
    lemma_decode_of_encode(source);
    let enc_src = spec_encode_param(source);
    let u = spec_resolve_url(endpoint, source, client_id);
    let e = endpoint.len() as int;
    assert forall|j: int| 0 <= j < e implies u[j] != '?' by {
        assert(u[j] == endpoint[j]);
        if endpoint[j] == '?' {
            assert(endpoint.contains('?'));
        }
    }
    assert(u[e] == '?');
    lemma_split_at(u, '?', e);
    let q = u.subrange(e + 1, u.len() as int);
    let a = 4 + enc_src.len() as int;
    assert(q.len() == 4 + enc_src.len() + 11 + spec_encode_param(client_id).len());
    assert forall|j: int| 0 <= j < a implies q[j] != '&' by {
        assert(q[j] == u[e + 1 + j]);
        if j < 4 {
            assert(q[j] == "?url="@[j + 1]);
        } else {
            assert(q[j] == enc_src[j - 4]);
        }
    }
    assert(q[a] == "&client_id="@[0]);
    assert(q[a] == '&');
    lemma_split_at(q, '&', a);
    let pair = q.subrange(0, a);
    assert(pair.len() == 4 + enc_src.len());
    assert forall|j: int| 0 <= j < 3 implies pair[j] != '=' by {
        assert(pair[j] == "?url="@[j + 1]);
    }
    assert(pair[3] == "?url="@[4]);
    assert(pair[3] == '=');
    lemma_split_at(pair, '=', 3);
    assert(pair.subrange(0, 3) =~= "url"@);
    assert(pair.subrange(4, pair.len() as int) =~= enc_src);
    assert(spec_url_param(q) == Some(enc_src));
    assert(spec_extract(u) == source);
}

/// What the error mapped from a failed transport call must say: HTTP
/// 404 and 403 become the two resolution-failure kinds, carrying the
/// human-meaningful source URL of the failed request; every other
/// failure keeps its message.
pub open spec fn classified(
    e: &DownloadError,
    status: Option<u16>,
    request_url: Seq<char>,
    message: Seq<char>,
) -> bool {
    match e {
        DownloadError::NetworkNotFound(u) => status == Some(404u16) && u@ == spec_extract(
            request_url,
        ),
        DownloadError::NetworkForbidden(u) => status == Some(403u16) && u@ == spec_extract(
            request_url,
        ),
        DownloadError::NetworkOther(m) => status != Some(404u16) && status != Some(403u16) && m@
            == message,
        DownloadError::File(_) => false,
    }
}

/// Maps a failed transport call to the domain error taxonomy.
pub fn classify_transport_error(status: Option<u16>, request_url: &str, message: &str) -> (e:
    DownloadError)
    ensures
        classified(&e, status, request_url@, message@),
{
    match status {
        Some(code) => {
            if code == 404 {
                DownloadError::NetworkNotFound(extract_soundcloud_url(request_url))
            } else if code == 403 {
                DownloadError::NetworkForbidden(extract_soundcloud_url(request_url))
            } else {
                DownloadError::NetworkOther(String::from_str(message))
            }
        },
        None => DownloadError::NetworkOther(String::from_str(message)),
    }
}

/// The rewrite of an artwork reference to its canonical larger size:
/// every occurrence of the low-resolution size token is replaced,
/// left to right, by the canonical one.
pub open spec fn spec_rewrite_artwork(s: Seq<char>) -> Seq<char>
    decreases s.len(),
{
    if s.len() == 0 {
        Seq::empty()
    } else if s.len() >= 5 && s.subrange(0, 5) == "large"@ {
        "t500x500"@ + spec_rewrite_artwork(s.skip(5))
    } else {
        seq![s[0]] + spec_rewrite_artwork(s.skip(1))
    }
}

fn matches_token_at(s: &str, i: usize) -> (b: bool)
    requires
        i + 5 <= s@.len(),
        s@.len() <= usize::MAX,
    ensures
        b == (s@.subrange(i as int, i as int + 5) == "large"@),
{
    proof {
        reveal_strlit("large");
    }
    let b = s.get_char(i) == 'l' && s.get_char(i + 1) == 'a' && s.get_char(i + 2) == 'r'
        && s.get_char(i + 3) == 'g' && s.get_char(i + 4) == 'e';
    proof {
        let sub = s@.subrange(i as int, i as int + 5);
        assert(sub[0] == s@[i as int]);
        assert(sub[1] == s@[i as int + 1]);
        assert(sub[2] == s@[i as int + 2]);
        assert(sub[3] == s@[i as int + 3]);
        assert(sub[4] == s@[i as int + 4]);
        if b {
            assert(sub =~= "large"@);
        }
    }
    b
}

pub fn rewrite_artwork_url(url: &str) -> (r: String)
    ensures
        r@ == spec_rewrite_artwork(url@),
{
    let n = url.unicode_len();
    let mut out = String::new();
    let mut i: usize = 0;
    proof {
        assert(url@.skip(0) =~= url@);
        assert(Seq::<char>::empty() + spec_rewrite_artwork(url@) =~= spec_rewrite_artwork(url@));
    }
    while i < n
        invariant
            n == url@.len(),
            i <= n,
            spec_rewrite_artwork(url@) == out@ + spec_rewrite_artwork(url@.skip(i as int)),
        decreases n - i,
    {
        let hit = if n - i >= 5 {
            matches_token_at(url, i)
        } else {
            false
        };
        if hit {
            proof {
                let rest = url@.skip(i as int);
                assert(rest.subrange(0, 5) =~= url@.subrange(i as int, i as int + 5));
                assert(rest.skip(5) =~= url@.skip(i as int + 5));
                assert(out@ + ("t500x500"@ + spec_rewrite_artwork(rest.skip(5))) =~= (out@
                    + "t500x500"@) + spec_rewrite_artwork(rest.skip(5)));
            }
            out.append("t500x500");
            i = i + 5;
        } else {
            let c = url.get_char(i);
            proof {
                let rest = url@.skip(i as int);
                if rest.len() >= 5 {
                    assert(rest.subrange(0, 5) =~= url@.subrange(i as int, i as int + 5));
                }
                assert(rest[0] == url@[i as int]);
                assert(rest.skip(1) =~= url@.skip(i as int + 1));
                assert(out@ + (seq![rest[0]] + spec_rewrite_artwork(rest.skip(1))) =~= (out@
                    + seq![rest[0]]) + spec_rewrite_artwork(rest.skip(1)));
                assert(out@ + seq![rest[0]] =~= out@.push(url@[i as int]));
            }
            out.push(c);
            i = i + 1;
        }
    }
    proof {
        assert(url@.skip(n as int) =~= Seq::<char>::empty());
        assert(out@ + Seq::<char>::empty() =~= out@);
    }
    out
}

} // verus!
