use vstd::prelude::*;

use crate::index::ids;

verus! {

/// The origins allowed when none are configured.
pub const DEFAULT_ALLOWED_ORIGINS: &'static str = "http://localhost:3000,http://localhost:5173";

/// Seconds a browser may cache a preflight answer.
pub const PREFLIGHT_MAX_AGE_SECS: u64 = 86400;

/// The separator between configured origins.
pub const ORIGIN_SEPARATOR: char = ',';

/// Which origins cross-origin requests may come from.
pub enum AllowedOrigins {
    /// Any origin: nothing usable was configured.
    Any,
    /// Exactly these origins, in the order configured.
    List(Vec<String>),
}

/// The pieces of `s` between occurrences of `sep`, empty pieces included:
/// one piece more than there are separators.
pub open spec fn split_on(s: Seq<char>, sep: char) -> Seq<Seq<char>>
    decreases s.len(),
{
    if s.len() == 0 {
        seq![Seq::<char>::empty()]
    } else {
        let rest = split_on(s.drop_last(), sep);
        if s.last() == sep {
            rest.push(Seq::<char>::empty())
        } else {
            rest.update(rest.len() - 1, rest.last().push(s.last()))
        }
    }
}

/// Whether a string is a valid HTTP header value: each of its bytes is a tab
/// or a byte of at least 32 other than 127. A character beyond ASCII is
/// encoded with bytes of at least 128 only.
pub open spec fn valid_header_value(s: Seq<char>) -> bool {
    forall|i: int|
        0 <= i < s.len() ==> (#[trigger] s[i] == '\t' || (s[i] as u32 >= 32 && s[i] as u32 != 127))
}

/// Whether `c` has the Unicode property White_Space.
pub open spec fn is_white_space(c: char) -> bool {
    let u = c as u32;
    (0x9 <= u <= 0xD) || u == 0x20 || u == 0x85 || u == 0xA0 || u == 0x1680 || (0x2000 <= u
        <= 0x200A) || u == 0x2028 || u == 0x2029 || u == 0x202F || u == 0x205F || u == 0x3000
}

/// `s` without its leading white space.
pub open spec fn trim_start_of(s: Seq<char>) -> Seq<char>
    decreases s.len(),
{
    if s.len() > 0 && is_white_space(s[0]) {
        trim_start_of(s.drop_first())
    } else {
        s
    }
}

/// `s` without its trailing white space.
pub open spec fn trim_end_of(s: Seq<char>) -> Seq<char>
    decreases s.len(),
{
    if s.len() > 0 && is_white_space(s.last()) {
        trim_end_of(s.drop_last())
    } else {
        s
    }
}

/// `s` without leading and trailing white space.
pub open spec fn trim_of(s: Seq<char>) -> Seq<char> {
    trim_end_of(trim_start_of(s))
}

/// Relies on `str::trim` of std: it removes leading and trailing characters
/// with the Unicode property White_Space.
#[verifier::external_body]
fn trim(s: &str) -> (r: &str)
    ensures
        r@ == trim_of(s@),
{
    s.trim()
}

/// Relies on `HeaderValue::from_str` of the http crate (through axum): it
/// accepts a string exactly when every byte is a tab or at least 32 and not
/// 127.
#[verifier::external_body]
fn parses_as_header_value(s: &str) -> (r: bool)
    ensures
        r == valid_header_value(s@),
{
    axum::http::HeaderValue::from_str(s).is_ok()
}

/// Whether an already trimmed piece of the configuration is an origin to
/// allow: it is not empty and is a valid header value.
pub fn keep_origin(trimmed: &str) -> (r: bool)
    ensures
        r == (trimmed@.len() > 0 && valid_header_value(trimmed@)),
{
    trimmed.unicode_len() > 0 && parses_as_header_value(trimmed)
}

/// The trimmed pieces that are origins to allow, in order.
pub open spec fn kept_origins(pieces: Seq<Seq<char>>) -> Seq<Seq<char>>
    decreases pieces.len(),
{
    if pieces.len() == 0 {
        Seq::empty()
    } else {
        let rest = kept_origins(pieces.drop_last());
        let t = trim_of(pieces.last());
        if t.len() > 0 && valid_header_value(t) {
            rest.push(t)
        } else {
            rest
        }
    }
}

/// The pieces of `s` between occurrences of `sep`.
pub fn split_pieces(s: &str, sep: char) -> (r: Vec<String>)
    ensures
        ids(r@) == split_on(s@, sep),
{
    let n = s.unicode_len();
    let mut done: Vec<String> = Vec::new();
    let mut start: usize = 0;
    let mut i: usize = 0;
    proof {
        assert(s@.subrange(0, 0) =~= Seq::<char>::empty());
        assert(ids(done@) + seq![s@.subrange(0, 0)] =~= split_on(s@.subrange(0, 0), sep));
    }
    while i < n
        invariant
            n == s@.len(),
            start <= i <= n,
            ids(done@) + seq![s@.subrange(start as int, i as int)] == split_on(
                s@.subrange(0, i as int),
                sep,
            ),
        decreases n - i,
    {
        let c = s.get_char(i);
        let ghost prefix = s@.subrange(0, i as int);
        let ghost next = s@.subrange(0, i as int + 1);
        let ghost before = ids(done@);
        let ghost piece = s@.subrange(start as int, i as int);
        let ghost rest = split_on(prefix, sep);
        proof {
            assert(next.drop_last() =~= prefix);
            assert(next.last() == c);
            assert(rest == before + seq![piece]);
            assert(rest.len() - 1 == before.len());
        }
        if c == sep {
            done.push(s.substring_char(start, i).to_owned());
            start = i + 1;
            proof {
                assert(split_on(next, sep) == rest.push(Seq::<char>::empty()));
                assert(ids(done@) =~= before.push(piece));
                assert(s@.subrange(start as int, i as int + 1) =~= Seq::<char>::empty());
                assert(ids(done@) + seq![s@.subrange(start as int, i as int + 1)] =~= split_on(
                    next,
                    sep,
                ));
            }
        } else {
            proof {
                assert(split_on(next, sep) == rest.update(rest.len() - 1, rest.last().push(c)));
                assert(s@.subrange(start as int, i as int + 1) =~= piece.push(c));
                assert(ids(done@) + seq![s@.subrange(start as int, i as int + 1)] =~= split_on(
                    next,
                    sep,
                ));
            }
        }
        i = i + 1;
    }
    done.push(s.substring_char(start, n).to_owned());
    proof {
        assert(s@.subrange(0, n as int) =~= s@);
    }
    assert(ids(done@) =~= split_on(s@, sep));
    done
}

/// The origins configured in `origins`: the comma-separated pieces, trimmed,
/// that are neither empty nor invalid header values. Any origin when none is
/// left.
pub fn parse_allowed_origins(origins: &str) -> (r: AllowedOrigins)
    ensures
        match r {
            AllowedOrigins::Any => kept_origins(split_on(origins@, ORIGIN_SEPARATOR)).len() == 0,
            AllowedOrigins::List(v) => ids(v@) == kept_origins(split_on(origins@, ORIGIN_SEPARATOR))
                && v@.len() > 0,
        },
{
    let pieces = split_pieces(origins, ORIGIN_SEPARATOR);
    let ghost all = ids(pieces@);
    let mut kept: Vec<String> = Vec::new();
    let mut i: usize = 0;
    while i < pieces.len()
        invariant
            i <= pieces.len(),
            all == ids(pieces@),
            ids(kept@) == kept_origins(all.subrange(0, i as int)),
        decreases pieces.len() - i,
    {
        proof {
            assert(all.subrange(0, i as int + 1).drop_last() =~= all.subrange(0, i as int));
            assert(all.subrange(0, i as int + 1).last() == pieces@[i as int]@);
        }
        let t = trim(pieces[i].as_str());
        if keep_origin(t) {
            let ghost before = ids(kept@);
            kept.push(t.to_owned());
            proof {
                assert(ids(kept@) =~= before.push(t@));
            }
        }
        i = i + 1;
    }
    proof {
        assert(all.subrange(0, pieces.len() as int) =~= all);
    }
    if kept.len() == 0 {
        AllowedOrigins::Any
    } else {
        AllowedOrigins::List(kept)
    }
}

/// The allowed origins under the configured list `configured`, or under the
/// default list when none is configured.
pub fn get_allowed_origins(configured: Option<&str>) -> (r: AllowedOrigins)
    ensures
        ({
            let src = match configured {
                Some(c) => c@,
                None => DEFAULT_ALLOWED_ORIGINS@,
            };
            match r {
                AllowedOrigins::Any => kept_origins(split_on(src, ORIGIN_SEPARATOR)).len() == 0,
                AllowedOrigins::List(v) => ids(v@) == kept_origins(split_on(src, ORIGIN_SEPARATOR))
                    && v@.len() > 0,
            }
        }),
{
    match configured {
        Some(c) => parse_allowed_origins(c),
        None => parse_allowed_origins(DEFAULT_ALLOWED_ORIGINS),
    }
}

} // verus!
