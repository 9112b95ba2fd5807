//! Names of browser windows, tabs ("visors") and the per-tab profile
//! directories, and the counter that numbers them.

use vstd::prelude::*;
use vstd::utf8::{decode_utf8, encode_utf8, is_char_boundary};
use vstd::utf8::{is_ascii_chars, is_leading_byte_width_1};
use crate::text::{
    decimal, digits_value, has_prefix, is_canonical_numeral, is_digit, lemma_decimal_digits, lemma_decimal_injective,
    lemma_decimal_reads_back, push_decimal,
};

verus! {

/// Byte length of the tab label prefix `visor_`.
pub const TAB_PREFIX_LEN: usize = 6;

/// The label of browser window number `id`.
pub open spec fn browser_label_text(id: nat) -> Seq<char> {
    "browser_"@ + decimal(id)
}

/// The label of tab number `id`.
pub open spec fn tab_label_text(id: nat) -> Seq<char> {
    "visor_"@ + decimal(id)
}

/// The name of the profile directory of tab number `id`.
pub open spec fn profile_dir_text(id: nat) -> Seq<char> {
    "visor_profile_"@ + decimal(id)
}

/// The profile directory that closing the tab labelled `label` removes: the
/// prefix `visor_profile_` followed by what comes after the label's first
/// six bytes.
pub open spec fn closing_profile_dir(label: Seq<char>) -> Seq<char> {
    let bytes = encode_utf8(label);
    "visor_profile_"@ + decode_utf8(bytes.subrange(TAB_PREFIX_LEN as int, bytes.len() as int))
}

/// The label's first six bytes end on a character boundary, so the rest can be cut off.
pub open spec fn tab_id_cuttable(label: Seq<char>) -> bool {
    is_char_boundary(encode_utf8(label), TAB_PREFIX_LEN as int)
}

/// Directories whose name starts with `visor_profile_` are tab profiles, to be purged at start-up.
pub open spec fn is_profile_dir_text(name: Seq<char>) -> bool {
    "visor_profile_"@.is_prefix_of(name)
}

/// Windows whose label starts with `browser_` are browser windows.
pub open spec fn is_browser_label_text(label: Seq<char>) -> bool {
    "browser_"@.is_prefix_of(label)
}

/// One number handed out by a counter at `c`: the counter moves to `c + 1`, which is the number.
pub open spec fn next_id_spec(c: nat) -> (nat, nat) {
    (c + 1, c + 1)
}

/// The numbers handed out by `k` requests to a counter at `c`, in order.
pub open spec fn issued_ids(c: nat, k: nat) -> Seq<nat>
    decreases k,
{
    if k == 0 {
        Seq::empty()
    } else {
        seq![next_id_spec(c).1] + issued_ids(next_id_spec(c).0, (k - 1) as nat)
    }
}

/// Where a counter at `c` stands after `k` requests.
pub open spec fn counter_after(c: nat, k: nat) -> nat
    decreases k,
{
    if k == 0 {
        c
    } else {
        counter_after(next_id_spec(c).0, (k - 1) as nat)
    }
}

/// The counter shared by windows and tabs; each one gets the next number.
pub struct WindowCounter {
    issued: u32,
}

impl View for WindowCounter {
    type V = nat;

    closed spec fn view(&self) -> nat {
        self.issued as nat
    }
}

impl WindowCounter {
    /// A counter that has handed out nothing yet.
    pub fn new() -> (c: WindowCounter)
        ensures
            c@ == 0,
    {
        WindowCounter { issued: 0 }
    }

    /// Whether another number can be handed out without overflowing.
    pub fn can_issue(&self) -> (r: bool)
        ensures
            r == (self@ < u32::MAX),
    {
        self.issued < u32::MAX
    }

    /// Hands out the next number: one more than the last one handed out.
    pub fn next_id(&mut self) -> (id: u32)
        requires
            old(self)@ < u32::MAX,
        ensures
            (final(self)@, id as nat) == next_id_spec(old(self)@),
    {
        self.issued = self.issued + 1;
        self.issued
    }
}

/// The label of browser window number `id` (`browser_{id}`).
pub fn browser_window_label(id: u32) -> (s: String)
    ensures
        s@ == browser_label_text(id as nat),
{
    let mut s = String::from_str("browser_");
    push_decimal(&mut s, id);
    s
}

/// Takes the next number from the counter for a new browser window and
/// gives the window's label.
pub fn next_browser_window_label(counter: &mut WindowCounter) -> (s: String)
    requires
        old(counter)@ < u32::MAX,
    ensures
        final(counter)@ == old(counter)@ + 1,
        s@ == browser_label_text(final(counter)@),
{
    let id = counter.next_id();
    browser_window_label(id)
}

/// The label of tab number `id` (`visor_{id}`).
pub fn tab_label(id: u32) -> (s: String)
    ensures
        s@ == tab_label_text(id as nat),
{
    let mut s = String::from_str("visor_");
    push_decimal(&mut s, id);
    s
}

/// The profile directory name of tab number `id` (`visor_profile_{id}`).
pub fn profile_dir_name(id: u32) -> (s: String)
    ensures
        s@ == profile_dir_text(id as nat),
{
    let mut s = String::from_str("visor_profile_");
    push_decimal(&mut s, id);
    s
}

/// The profile directory to remove once the tab labelled `label` is closed:
/// `visor_profile_` followed by the label from its seventh byte on.
pub fn closed_tab_profile_dir(label: &str) -> (s: String)
    requires
        tab_id_cuttable(label@),
    ensures
        s@ == closing_profile_dir(label@),
{
    let (_, id) = label.split_at(TAB_PREFIX_LEN);
    let mut s = String::from_str("visor_profile_");
    s.append(id);
    proof {
        vstd::utf8::encode_utf8_decode_utf8(id@);
    }
    s
}

/// Whether `name` is the name of a tab profile directory.
pub fn is_profile_dir(name: &str) -> (r: bool)
    ensures
        r == is_profile_dir_text(name@),
{
    has_prefix(name, "visor_profile_")
}

/// Whether `label` is the label of a browser window.
pub fn is_browser_window(label: &str) -> (r: bool)
    ensures
        r == is_browser_label_text(label@),
{
    has_prefix(label, "browser_")
}

/// The UTF-8 encoding of a concatenation is the concatenation of the encodings.
pub proof fn lemma_encode_utf8_concat(a: Seq<char>, b: Seq<char>)
    ensures
        encode_utf8(a + b) == encode_utf8(a) + encode_utf8(b),
    decreases a.len(),
{
    if a.len() == 0 {
        assert(a + b =~= b);
        assert(encode_utf8(a) + encode_utf8(b) =~= encode_utf8(b));
    } else {
        assert((a + b).drop_first() =~= a.drop_first() + b);
        assert((a + b)[0] == a[0]);
        lemma_encode_utf8_concat(a.drop_first(), b);
        let e0 = vstd::utf8::encode_scalar(a[0] as u32);
        assert(e0 + (encode_utf8(a.drop_first()) + encode_utf8(b)) =~= (e0 + encode_utf8(a.drop_first()))
            + encode_utf8(b));
    }
}

/// Decimal renderings are ASCII.
pub proof fn lemma_decimal_ascii(n: nat)
    ensures
        is_ascii_chars(decimal(n)),
{
    lemma_decimal_digits(n);
    assert forall|i| 0 <= i < decimal(n).len() implies '\0' <= #[trigger] decimal(n)[i] <= '\u{7f}' by {
        assert(is_digit(decimal(n)[i]));
    }
}

/// Two different numbers give two different tab labels, two different
/// profile directories and two different window labels: no two tabs share
/// a profile.
pub proof fn lemma_distinct_numbers_distinct_names(a: nat, b: nat)
    requires
        a != b,
    ensures
        tab_label_text(a) != tab_label_text(b),
        profile_dir_text(a) != profile_dir_text(b),
        browser_label_text(a) != browser_label_text(b),
{
    reveal_strlit("visor_");
    reveal_strlit("visor_profile_");
    reveal_strlit("browser_");
    if tab_label_text(a) == tab_label_text(b) {
        assert(tab_label_text(a).skip(6) =~= decimal(a));
        assert(tab_label_text(b).skip(6) =~= decimal(b));
        lemma_decimal_injective(a, b);
    }
    if profile_dir_text(a) == profile_dir_text(b) {
        assert(profile_dir_text(a).skip(14) =~= decimal(a));
        assert(profile_dir_text(b).skip(14) =~= decimal(b));
        lemma_decimal_injective(a, b);
    }
    if browser_label_text(a) == browser_label_text(b) {
        assert(browser_label_text(a).skip(8) =~= decimal(a));
        assert(browser_label_text(b).skip(8) =~= decimal(b));
        lemma_decimal_injective(a, b);
    }
}

/// Window labels are recognised as browser windows, tab labels are not, so
/// a window label never equals a tab label.
pub proof fn lemma_window_and_tab_labels_differ(a: nat, b: nat)
    ensures
        is_browser_label_text(browser_label_text(a)),
        !is_browser_label_text(tab_label_text(b)),
        browser_label_text(a) != tab_label_text(b),
{
    reveal_strlit("visor_");
    reveal_strlit("browser_");
    assert("browser_"@.is_prefix_of(browser_label_text(a))) by {
        assert(browser_label_text(a).take(8) =~= "browser_"@);
    }
    assert(tab_label_text(b)[0] == 'v');
    assert(browser_label_text(a)[0] == 'b');
}

/// Every profile directory that a tab is given is one that the start-up
/// clean-up removes.
pub proof fn lemma_tab_profiles_purged_at_startup(id: nat)
    ensures
        is_profile_dir_text(profile_dir_text(id)),
{
    reveal_strlit("visor_profile_");
    assert(profile_dir_text(id).take(14) =~= "visor_profile_"@);
}

/// Closing a tab removes exactly the profile directory that the tab was
/// given when it was created.
pub proof fn lemma_closing_removes_own_profile(id: nat)
    ensures
        tab_id_cuttable(tab_label_text(id)),
        closing_profile_dir(tab_label_text(id)) == profile_dir_text(id),
{
    reveal_strlit("visor_");
    let p = "visor_"@;
    let d = decimal(id);
    let label = tab_label_text(id);
    let bytes = encode_utf8(label);
    lemma_encode_utf8_concat(p, d);
    assert(is_ascii_chars(p));
    vstd::utf8::is_ascii_chars_encode_utf8(p);
    lemma_decimal_ascii(id);
    vstd::utf8::is_ascii_chars_encode_utf8(d);
    lemma_decimal_digits(id);
    assert(encode_utf8(p).len() == 6);
    assert(bytes.subrange(6, bytes.len() as int) =~= encode_utf8(d));
    vstd::utf8::encode_utf8_decode_utf8(d);
    vstd::utf8::encode_utf8_valid_utf8(label);
    assert(bytes[6] == encode_utf8(d)[0]);
    assert(d[0] as u8 == encode_utf8(d)[0]);
    assert(is_digit(d[0]));
    assert(is_leading_byte_width_1(bytes[6]));
    vstd::utf8::is_char_boundary_iff_is_leading_byte(bytes, 6);
}

/// Over any run of `k` requests, tabs and windows in any order, a fresh
/// counter hands out exactly `1..=k`, each once, and ends at `k`; so no tab
/// label, window label or profile directory is ever given out twice, and no
/// window shares its number with a tab.
pub proof fn lemma_run_of_requests(k: nat)
    ensures
        issued_ids(0, k) == Seq::new(k, |i: int| (i + 1) as nat),
        counter_after(0, k) == k,
        forall|i: int, j: int|
            0 <= i < k && 0 <= j < k && i != j ==> {
                &&& tab_label_text(#[trigger] issued_ids(0, k)[i]) != tab_label_text(#[trigger] issued_ids(0, k)[j])
                &&& profile_dir_text(issued_ids(0, k)[i]) != profile_dir_text(issued_ids(0, k)[j])
                &&& browser_label_text(issued_ids(0, k)[i]) != browser_label_text(issued_ids(0, k)[j])
                &&& browser_label_text(issued_ids(0, k)[i]) != tab_label_text(issued_ids(0, k)[j])
            },
{
    lemma_issued_ids_from(0, k);
    let ids = issued_ids(0, k);
    assert forall|i: int, j: int|
        0 <= i < k && 0 <= j < k && i != j implies {
            &&& tab_label_text(#[trigger] ids[i]) != tab_label_text(#[trigger] ids[j])
            &&& profile_dir_text(ids[i]) != profile_dir_text(ids[j])
            &&& browser_label_text(ids[i]) != browser_label_text(ids[j])
            &&& browser_label_text(ids[i]) != tab_label_text(ids[j])
        } by {
        lemma_distinct_numbers_distinct_names(ids[i], ids[j]);
        lemma_window_and_tab_labels_differ(ids[i], ids[j]);
    }
}

/// `k` requests to a counter at `c` hand out `c + 1, ..., c + k` and leave it at `c + k`.
proof fn lemma_issued_ids_from(c: nat, k: nat)
    ensures
        issued_ids(c, k) == Seq::new(k, |i: int| (c + i + 1) as nat),
        counter_after(c, k) == c + k,
    decreases k,
{
    if k > 0 {
        lemma_issued_ids_from(c + 1, (k - 1) as nat);
        assert(issued_ids(c, k) =~= Seq::new(k, |i: int| (c + i + 1) as nat));
    } else {
        assert(issued_ids(c, k) =~= Seq::new(k, |i: int| (c + i + 1) as nat));
    }
}

/// Each name is its fixed prefix followed by the canonical decimal numeral
/// of the number: reading the numeral back gives the number.
pub proof fn lemma_names_carry_their_number(id: nat)
    ensures
        tab_label_text(id).take(6) == "visor_"@,
        is_canonical_numeral(tab_label_text(id).skip(6)),
        digits_value(tab_label_text(id).skip(6)) == id,
        browser_label_text(id).take(8) == "browser_"@,
        is_canonical_numeral(browser_label_text(id).skip(8)),
        digits_value(browser_label_text(id).skip(8)) == id,
        profile_dir_text(id).take(14) == "visor_profile_"@,
        is_canonical_numeral(profile_dir_text(id).skip(14)),
        digits_value(profile_dir_text(id).skip(14)) == id,
{
    reveal_strlit("visor_");
    reveal_strlit("browser_");
    reveal_strlit("visor_profile_");
    lemma_decimal_reads_back(id);
    assert(tab_label_text(id).take(6) =~= "visor_"@);
    assert(tab_label_text(id).skip(6) =~= decimal(id));
    assert(browser_label_text(id).take(8) =~= "browser_"@);
    assert(browser_label_text(id).skip(8) =~= decimal(id));
    assert(profile_dir_text(id).take(14) =~= "visor_profile_"@);
    assert(profile_dir_text(id).skip(14) =~= decimal(id));
}

} // verus!
