//! Zones: the generated sub-areas of a level.

use vstd::prelude::*;

use crate::text::{chars_of, digit_value, digits_value, is_digit, string_of};

verus! {

/// One generated sub-area of a level.
#[derive(Debug, Clone, PartialEq, Eq, Hash)]
pub struct Zone {
    /// Session-unique id given by the generator.
    pub alias: u32,
    /// Index within its dimension.
    pub local: u32,
    pub dimension: String,
    pub layer: String,
    /// Sub-area letter, filled in by item distribution when known.
    pub area: Option<char>,
}

pub struct ZoneView {
    pub alias: u32,
    pub local: u32,
    pub dimension: Seq<char>,
    pub layer: Seq<char>,
    pub area: Option<char>,
}

impl View for Zone {
    type V = ZoneView;

    open spec fn view(&self) -> ZoneView {
        ZoneView {
            alias: self.alias,
            local: self.local,
            dimension: self.dimension@,
            layer: self.layer@,
            area: self.area,
        }
    }
}

/// What identifies a zone for lookup: its alias and dimension.
#[derive(Debug, Clone, PartialEq, Eq, Hash)]
pub struct ZoneKey {
    pub alias: u32,
    pub dimension: String,
}

pub struct ZoneKeyView {
    pub alias: u32,
    pub dimension: Seq<char>,
}

impl View for ZoneKey {
    type V = ZoneKeyView;

    open spec fn view(&self) -> ZoneKeyView {
        ZoneKeyView { alias: self.alias, dimension: self.dimension@ }
    }
}

pub open spec fn digit_char(d: nat) -> char {
    if d == 0 {
        '0'
    } else if d == 1 {
        '1'
    } else if d == 2 {
        '2'
    } else if d == 3 {
        '3'
    } else if d == 4 {
        '4'
    } else if d == 5 {
        '5'
    } else if d == 6 {
        '6'
    } else if d == 7 {
        '7'
    } else if d == 8 {
        '8'
    } else {
        '9'
    }
}

/// The decimal digits of `n`, most significant first.
pub open spec fn decimal(n: nat) -> Seq<char>
    decreases n,
{
    if n < 10 {
        seq![digit_char(n)]
    } else {
        decimal(n / 10).push(digit_char(n % 10))
    }
}

/// The decimal digits of `n` are digits, at least one, and read as `n`.
pub proof fn lemma_decimal(n: nat)
    ensures
        decimal(n).len() > 0,
        forall|i: int| 0 <= i < decimal(n).len() ==> is_digit(#[trigger] decimal(n)[i]),
        digits_value(decimal(n)) == n,
    decreases n,
{
    assert(digit_value(digit_char(n % 10)) == n % 10);
    if n < 10 {
        let d = decimal(n);
        assert(d.drop_last() =~= Seq::<char>::empty());
        assert(d.last() == digit_char(n));
        assert(digits_value(d) == digits_value(d.drop_last()) * 10 + digit_value(d.last()));
    } else {
        lemma_decimal(n / 10);
        let d = decimal(n);
        assert(d.drop_last() =~= decimal(n / 10));
        assert(d.last() == digit_char(n % 10));
        assert(digits_value(d) == digits_value(d.drop_last()) * 10 + digit_value(d.last()));
        assert((n / 10) * 10 + n % 10 == n);
    }
}

/// Appends the decimal digits of `n` to `out`.
pub fn push_decimal(out: &mut Vec<char>, n: u64)
    ensures
        final(out)@ == old(out)@ + decimal(n as nat),
    decreases n,
{
    if n >= 10 {
        push_decimal(out, n / 10);
    }
    let d = n % 10;
    let c = char_of_digit(d);
    out.push(c);
    assert(final(out)@ =~= old(out)@ + decimal(n as nat));
}

fn char_of_digit(d: u64) -> (c: char)
    requires
        d < 10,
    ensures
        c == digit_char(d as nat),
{
    match d {
        0 => '0',
        1 => '1',
        2 => '2',
        3 => '3',
        4 => '4',
        5 => '5',
        6 => '6',
        7 => '7',
        8 => '8',
        _ => '9',
    }
}

/// How a zone reads on screen: `ZONE_<alias> <layer> <dimension>`.
pub open spec fn zone_label(z: ZoneView) -> Seq<char> {
    "ZONE_"@ + decimal(z.alias as nat) + " "@ + z.layer + " "@ + z.dimension
}

/// Lexicographic order of character sequences.
pub open spec fn seq_order(a: Seq<char>, b: Seq<char>) -> core::cmp::Ordering
    decreases a.len(),
{
    if a.len() == 0 && b.len() == 0 {
        core::cmp::Ordering::Equal
    } else if a.len() == 0 {
        core::cmp::Ordering::Less
    } else if b.len() == 0 {
        core::cmp::Ordering::Greater
    } else if a[0] < b[0] {
        core::cmp::Ordering::Less
    } else if a[0] > b[0] {
        core::cmp::Ordering::Greater
    } else {
        seq_order(a.drop_first(), b.drop_first())
    }
}

/// Zones in order of alias, then layer, then dimension.
pub open spec fn zone_order(a: ZoneView, b: ZoneView) -> core::cmp::Ordering {
    if a.alias < b.alias {
        core::cmp::Ordering::Less
    } else if a.alias > b.alias {
        core::cmp::Ordering::Greater
    } else if seq_order(a.layer, b.layer) != core::cmp::Ordering::Equal {
        seq_order(a.layer, b.layer)
    } else {
        seq_order(a.dimension, b.dimension)
    }
}

/// Compares two character sequences in lexicographic order.
pub fn compare_chars(a: &[char], b: &[char]) -> (r: core::cmp::Ordering)
    ensures
        r == seq_order(a@, b@),
{
    let mut i: usize = 0;
    assert(a@.skip(0) =~= a@ && b@.skip(0) =~= b@);
    while i < a.len() && i < b.len() && a[i] == b[i]
        invariant
            i <= a@.len(),
            i <= b@.len(),
            seq_order(a@, b@) == seq_order(a@.skip(i as int), b@.skip(i as int)),
        decreases a@.len() - i,
    {
        assert(a@.skip(i as int).drop_first() =~= a@.skip(i + 1));
        assert(b@.skip(i as int).drop_first() =~= b@.skip(i + 1));
        i = i + 1;
    }
    let ghost sa = a@.skip(i as int);
    let ghost sb = b@.skip(i as int);
    if i == a.len() && i == b.len() {
        assert(sa.len() == 0 && sb.len() == 0);
        core::cmp::Ordering::Equal
    } else if i == a.len() {
        assert(sa.len() == 0 && sb.len() > 0);
        core::cmp::Ordering::Less
    } else if i == b.len() {
        assert(sb.len() == 0 && sa.len() > 0);
        core::cmp::Ordering::Greater
    } else if a[i] < b[i] {
        assert(sa[0] == a@[i as int] && sb[0] == b@[i as int]);
        core::cmp::Ordering::Less
    } else {
        assert(sa[0] == a@[i as int] && sb[0] == b@[i as int]);
        core::cmp::Ordering::Greater
    }
}

impl Zone {
    /// A copy of this zone.
    pub fn duplicate(&self) -> (r: Zone)
        ensures
            r@ == self@,
    {
        Zone {
            alias: self.alias,
            local: self.local,
            dimension: self.dimension.clone(),
            layer: self.layer.clone(),
            area: self.area,
        }
    }

    /// How the zone reads on screen: `ZONE_<alias> <layer> <dimension>`.
    pub fn label(&self) -> (r: String)
        ensures
            r@ == zone_label(self@),
    {
        let mut out: Vec<char> = chars_of("ZONE_");
        push_decimal(&mut out, self.alias as u64);
        let mut rest = chars_of(" ");
        out.append(&mut rest);
        let mut layer = chars_of(self.layer.as_str());
        out.append(&mut layer);
        let mut gap = chars_of(" ");
        out.append(&mut gap);
        let mut dim = chars_of(self.dimension.as_str());
        out.append(&mut dim);
        string_of(out.as_slice())
    }

    /// Orders zones by alias, then layer, then dimension.
    pub fn compare(&self, other: &Zone) -> (r: core::cmp::Ordering)
        ensures
            r == zone_order(self@, other@),
    {
        if self.alias < other.alias {
            core::cmp::Ordering::Less
        } else if self.alias > other.alias {
            core::cmp::Ordering::Greater
        } else {
            let a = chars_of(self.layer.as_str());
            let b = chars_of(other.layer.as_str());
            let by_layer = compare_chars(a.as_slice(), b.as_slice());
            match by_layer {
                core::cmp::Ordering::Equal => {
                    let c = chars_of(self.dimension.as_str());
                    let d = chars_of(other.dimension.as_str());
                    compare_chars(c.as_slice(), d.as_slice())
                },
                _ => by_layer,
            }
        }
    }
}

} // verus!
