//! Per-extraction identifiers and placeholder cover links, drawn at random.
use vstd::prelude::*;

verus! {

/// Length of a track identifier.
pub const ID_LEN: usize = 10;

/// The characters an identifier is made of: ASCII letters and digits.
pub open spec fn is_id_char(c: char) -> bool {
    ('A' <= c && c <= 'Z') || ('a' <= c && c <= 'z') || ('0' <= c && c <= '9')
}

/// A well-formed identifier: `ID_LEN` ASCII letters and digits.
pub open spec fn is_track_id(s: Seq<char>) -> bool {
    s.len() == ID_LEN && forall|i: int| 0 <= i < s.len() ==> is_id_char(#[trigger] s[i])
}

/// Relies on rand 0.8's `random`: a value drawn from the thread-local generator;
/// nothing is known of which value comes.
pub assume_specification<T>[ rand::random::<T> ]() -> (r: T)
    where
        rand::distributions::Standard: rand::distributions::Distribution<T>,
;

/// Relies on rand's `Alphanumeric` distribution, which samples from the 62
/// bytes `A-Z`, `a-z`, `0-9`.
#[verifier::external_body]
fn draw_alphanumeric() -> (c: char)
    ensures
        is_id_char(c),
{
    rand::Rng::sample(&mut rand::thread_rng(), rand::distributions::Alphanumeric) as char
}

/// Relies on `String::push`: the character is appended.
#[verifier::external_body]
pub(crate) fn push_char(s: &mut String, c: char)
    ensures
        final(s)@ == old(s)@.push(c),
{
    s.push(c)
}

/// A fresh random identifier. Two calls may return different values; nothing
/// ties an identifier to the file it was made for.
pub fn generate_id() -> (r: String)
    ensures
        is_track_id(r@),
{
    let mut s = String::new();
    let mut k: usize = 0;
    while k < ID_LEN
        invariant
            k <= ID_LEN,
            s@.len() == k,
            forall|i: int| 0 <= i < s@.len() ==> is_id_char(#[trigger] s@[i]),
        decreases ID_LEN - k,
    {
        let c = draw_alphanumeric();
        push_char(&mut s, c);
        k = k + 1;
    }
    s
}

/// The decimal digit for `d < 10`.
pub open spec fn digit_char(d: nat) -> char {
    seq!['0', '1', '2', '3', '4', '5', '6', '7', '8', '9'][d as int]
}

/// The decimal notation of `n`, without leading zeros.
pub open spec fn decimal(n: nat) -> Seq<char>
    decreases n,
{
    if n < 10 {
        seq![digit_char(n)]
    } else {
        decimal(n / 10).push(digit_char(n % 10))
    }
}

/// Appends the decimal notation of `n`.
pub fn push_decimal(s: &mut String, n: u32)
    ensures
        final(s)@ == old(s)@ + decimal(n as nat),
    decreases n,
{
    let digits: [char; 10] = ['0', '1', '2', '3', '4', '5', '6', '7', '8', '9'];
    if n >= 10 {
        push_decimal(s, n / 10);
    }
    let d = digits[(n % 10) as usize];
    assert(d == digit_char((n % 10) as nat));
    push_char(s, d);
    assert(final(s)@ =~= old(s)@ + decimal(n as nat));
}

/// The address of the placeholder picture service.
pub open spec fn placeholder_prefix() -> Seq<char> {
    "https://picsum.photos/300/300?random="@
}

/// The placeholder cover link for the draw `n`.
pub open spec fn placeholder_url(n: u32) -> Seq<char> {
    placeholder_prefix() + decimal(n as nat)
}

/// Where a track's cover link comes from.
#[derive(Clone, Copy, Debug, PartialEq, Eq, Structural)]
pub enum CoverPolicy {
    /// No artwork: the cover is always absent.
    NoArtwork,
    /// Demonstration mode: a coin decides between no cover and a link to a
    /// random placeholder picture.
    DemoPlaceholder,
}

/// The cover that the demonstration mode gives for a coin and a drawn number.
pub fn placeholder_cover(coin: bool, n: u32) -> (r: Option<String>)
    ensures
        coin ==> (r matches Some(u) && u@ == placeholder_url(n)),
        !coin ==> r is None,
{
    if coin {
        let mut u = String::from_str("https://picsum.photos/300/300?random=");
        push_decimal(&mut u, n);
        Some(u)
    } else {
        None
    }
}

/// What a cover may be under a policy.
pub open spec fn cover_allowed(policy: CoverPolicy, cover: Option<Seq<char>>) -> bool {
    match policy {
        CoverPolicy::NoArtwork => cover is None,
        CoverPolicy::DemoPlaceholder => match cover {
            None => true,
            Some(u) => exists|n: u32| u == placeholder_url(n),
        },
    }
}

pub open spec fn opt_view(o: Option<String>) -> Option<Seq<char>> {
    match o {
        Some(s) => Some(s@),
        None => None,
    }
}

/// Draws a cover under `policy`.
pub fn draw_cover(policy: CoverPolicy) -> (r: Option<String>)
    ensures
        cover_allowed(policy, opt_view(r)),
{
    match policy {
        CoverPolicy::NoArtwork => None,
        CoverPolicy::DemoPlaceholder => {
            let coin = rand::random::<bool>();
            let n = rand::random::<u32>();
            placeholder_cover(coin, n)
        },
    }
}

} // verus!
