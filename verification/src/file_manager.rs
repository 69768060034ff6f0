//! Filling the registry from a list of candidate files, and sizes as people
//! read them.

use crate::registry::{valid_name, with_entry, EntryModel, FileRegistry};
use vstd::prelude::*;
use vstd::string::StringExecFns;

verus! {

/// A path that may be added to the registry, with what the file system says
/// of it.
#[derive(Debug, Clone, PartialEq, Eq)]
pub struct FileCandidate {
    /// The path as given.
    pub path: String,
    /// The last component of the path, where it has one that is UTF-8.
    pub file_name: Option<String>,
    /// Whether the path leads to a regular file.
    pub is_file: bool,
}

impl FileCandidate {
    /// A candidate is taken when it is a regular file with a name that the
    /// registry accepts.
    pub open spec fn accepted(self) -> bool {
        self.is_file && self.file_name is Some && valid_name(self.file_name->0@)
    }
}

/// The registry after each accepted candidate was registered under its
/// file name, in order.
pub open spec fn registered(entries: Seq<EntryModel>, candidates: Seq<FileCandidate>) -> Seq<
    EntryModel,
>
    decreases candidates.len(),
{
    if candidates.len() == 0 {
        entries
    } else {
        let earlier = registered(entries, candidates.drop_last());
        let candidate = candidates.last();
        if candidate.accepted() {
            with_entry(earlier, candidate.file_name->0@, candidate.path@)
        } else {
            earlier
        }
    }
}

/// How many of the candidates are accepted.
pub open spec fn accepted_count(candidates: Seq<FileCandidate>) -> nat
    decreases candidates.len(),
{
    if candidates.len() == 0 {
        0
    } else {
        accepted_count(candidates.drop_last()) + if candidates.last().accepted() {
            1nat
        } else {
            0nat
        }
    }
}

/// No more candidates are accepted than there are.
pub proof fn lemma_accepted_count_bound(candidates: Seq<FileCandidate>)
    ensures
        accepted_count(candidates) <= candidates.len(),
    decreases candidates.len(),
{
    if candidates.len() > 0 {
        lemma_accepted_count_bound(candidates.drop_last());
    }
}

/// Registers every candidate that is a regular file with a usable name
/// under that name, and says how many were registered.
pub fn add_files(file_list: &mut FileRegistry, candidates: Vec<FileCandidate>) -> (count: usize)
    ensures
        final(file_list)@ == registered(old(file_list)@, candidates@),
        count == accepted_count(candidates@),
{
    let mut count: usize = 0;
    let mut i: usize = 0;
    while i < candidates.len()
        invariant
            i <= candidates@.len(),
            file_list@ == registered(old(file_list)@, candidates@.take(i as int)),
            count == accepted_count(candidates@.take(i as int)),
        decreases candidates@.len() - i,
    {
        let candidate = &candidates[i];
        proof {
            let done = candidates@.take(i + 1);
            assert(done.drop_last() =~= candidates@.take(i as int));
            assert(done.last() == candidates@[i as int]);
            lemma_accepted_count_bound(candidates@.take(i as int));
        }
        if candidate.is_file {
            match &candidate.file_name {
                Some(name) => {
                    let added = file_list.insert(name.clone(), candidate.path.clone());
                    if added.is_ok() {
                        count += 1;
                    }
                },
                None => {},
            }
        }
        i += 1;
    }
    assert(candidates@.take(i as int) =~= candidates@);
    count
}

/// Bytes in a kibibyte.
pub const KB: u64 = 1024;

/// Bytes in a mebibyte.
pub const MB: u64 = 0x10_0000;

/// Bytes in a gibibyte.
pub const GB: u64 = 0x4000_0000;

/// The character of a decimal digit.
pub open spec fn digit_char(digit: nat) -> char {
    if digit == 0 {
        '0'
    } else if digit == 1 {
        '1'
    } else if digit == 2 {
        '2'
    } else if digit == 3 {
        '3'
    } else if digit == 4 {
        '4'
    } else if digit == 5 {
        '5'
    } else if digit == 6 {
        '6'
    } else if digit == 7 {
        '7'
    } else if digit == 8 {
        '8'
    } else {
        '9'
    }
}

/// `n` in base ten, most significant digit first, without leading zeros.
pub open spec fn decimal_text(n: nat) -> Seq<char>
    decreases n,
{
    if n < 10 {
        seq![digit_char(n)]
    } else {
        decimal_text(n / 10).push(digit_char(n % 10))
    }
}

/// The quotient `n / d` rounded to the nearest whole number, a tie going to
/// the even neighbour.
pub open spec fn round_half_even(n: nat, d: nat) -> nat
    recommends
        d > 0,
{
    let q = n / d;
    let r = n % d;
    if 2 * r > d || (2 * r == d && q % 2 == 1) {
        q + 1
    } else {
        q
    }
}

/// The distance between neighbouring double-precision numbers around
/// `size`, where that is more than one.
pub open spec fn double_spacing(size: u64) -> nat {
    if size < 0x20_0000_0000_0000 {
        1
    } else if size < 0x40_0000_0000_0000 {
        2
    } else if size < 0x80_0000_0000_0000 {
        4
    } else if size < 0x100_0000_0000_0000 {
        8
    } else if size < 0x200_0000_0000_0000 {
        16
    } else if size < 0x400_0000_0000_0000 {
        32
    } else if size < 0x800_0000_0000_0000 {
        64
    } else if size < 0x1000_0000_0000_0000 {
        128
    } else if size < 0x2000_0000_0000_0000 {
        256
    } else if size < 0x4000_0000_0000_0000 {
        512
    } else if size < 0x8000_0000_0000_0000 {
        1024
    } else {
        2048
    }
}

/// The double-precision number nearest to `size`: `size` itself below
/// 2^53, else `size` rounded to 53 significant bits.
pub open spec fn nearest_double(size: u64) -> nat {
    round_half_even(size as nat, double_spacing(size)) * double_spacing(size)
}

/// `size / unit` in hundredths, rounded as a formatter rounds the double
/// nearest to `size` divided by a power of two.
pub open spec fn hundredths(size: u64, unit: u64) -> nat {
    round_half_even(nearest_double(size) * 100, unit as nat)
}

/// A count of hundredths written with two decimals.
pub open spec fn two_decimals(count: nat) -> Seq<char> {
    decimal_text(count / 100) + seq!['.', digit_char(count / 10 % 10), digit_char(count % 10)]
}

/// A size as people read it: two decimals of the largest binary unit that
/// the size reaches, or the plain count of bytes below a kibibyte.
pub open spec fn size_text(size: u64) -> Seq<char> {
    if size >= GB {
        two_decimals(hundredths(size, GB)) + " GB"@
    } else if size >= MB {
        two_decimals(hundredths(size, MB)) + " MB"@
    } else if size >= KB {
        two_decimals(hundredths(size, KB)) + " KB"@
    } else {
        decimal_text(size as nat) + " B"@
    }
}

/// Appends one decimal digit.
fn push_digit(text: &mut String, digit: u8)
    requires
        digit < 10,
    ensures
        final(text)@ == old(text)@.push(digit_char(digit as nat)),
{
    proof {
        reveal_strlit("0");
        reveal_strlit("1");
        reveal_strlit("2");
        reveal_strlit("3");
        reveal_strlit("4");
        reveal_strlit("5");
        reveal_strlit("6");
        reveal_strlit("7");
        reveal_strlit("8");
        reveal_strlit("9");
    }
    let glyph = if digit == 0 {
        "0"
    } else if digit == 1 {
        "1"
    } else if digit == 2 {
        "2"
    } else if digit == 3 {
        "3"
    } else if digit == 4 {
        "4"
    } else if digit == 5 {
        "5"
    } else if digit == 6 {
        "6"
    } else if digit == 7 {
        "7"
    } else if digit == 8 {
        "8"
    } else {
        "9"
    };
    text.append(glyph);
    assert(text@ =~= old(text)@.push(digit_char(digit as nat)));
}

/// Appends `n` in base ten.
fn push_decimal(text: &mut String, n: u128)
    ensures
        final(text)@ == old(text)@ + decimal_text(n as nat),
    decreases n,
{
    if n >= 10 {
        push_decimal(text, n / 10);
    }
    push_digit(text, (n % 10) as u8);
    assert(text@ =~= old(text)@ + decimal_text(n as nat));
}

/// Computes [`round_half_even`].
fn divide_half_even(n: u128, d: u128) -> (q: u128)
    requires
        d > 0,
        n / d < u128::MAX,
        d <= u64::MAX,
    ensures
        q == round_half_even(n as nat, d as nat),
{
    let q = n / d;
    let r = n % d;
    if 2 * r > d || (2 * r == d && q % 2 == 1) {
        q + 1
    } else {
        q
    }
}

/// Computes [`double_spacing`].
fn spacing_of(size: u64) -> (spacing: u64)
    ensures
        spacing == double_spacing(size),
        1 <= spacing <= 2048,
{
    if size < 0x20_0000_0000_0000 {
        1
    } else if size < 0x40_0000_0000_0000 {
        2
    } else if size < 0x80_0000_0000_0000 {
        4
    } else if size < 0x100_0000_0000_0000 {
        8
    } else if size < 0x200_0000_0000_0000 {
        16
    } else if size < 0x400_0000_0000_0000 {
        32
    } else if size < 0x800_0000_0000_0000 {
        64
    } else if size < 0x1000_0000_0000_0000 {
        128
    } else if size < 0x2000_0000_0000_0000 {
        256
    } else if size < 0x4000_0000_0000_0000 {
        512
    } else if size < 0x8000_0000_0000_0000 {
        1024
    } else {
        2048
    }
}

/// Appends `size / unit` with two decimals.
fn push_scaled(text: &mut String, size: u64, unit: u64)
    requires
        unit == KB || unit == MB || unit == GB,
    ensures
        final(text)@ == old(text)@ + two_decimals(hundredths(size, unit)),
{
    let spacing = spacing_of(size);
    let steps = divide_half_even(size as u128, spacing as u128);
    assert(steps <= size + 1) by (nonlinear_arith)
        requires
            steps <= size as u128 / spacing as u128 + 1,
            spacing >= 1,
    ;
    assert(steps * spacing <= 0x1_0000_0000_0000_0000 * 2048) by (nonlinear_arith)
        requires
            steps <= 0x1_0000_0000_0000_0000,
            spacing <= 2048,
    ;
    let nearest: u128 = steps * spacing as u128;
    let scaled: u128 = nearest * 100;
    assert(scaled / unit as u128 <= scaled) by (nonlinear_arith)
        requires
            unit >= 1,
    ;
    let count = divide_half_even(scaled, unit as u128);
    push_decimal(text, count / 100);
    proof {
        reveal_strlit(".");
    }
    text.append(".");
    push_digit(text, (count / 10 % 10) as u8);
    push_digit(text, (count % 10) as u8);
    assert(text@ =~= old(text)@ + two_decimals(hundredths(size, unit)));
}

pub fn format_file_size(size: u64) -> (text: String)
    ensures
        text@ == size_text(size),
{
    let mut text = String::new();
    if size >= GB {
        push_scaled(&mut text, size, GB);
        text.append(" GB");
    } else if size >= MB {
        push_scaled(&mut text, size, MB);
        text.append(" MB");
    } else if size >= KB {
        push_scaled(&mut text, size, KB);
        text.append(" KB");
    } else {
        push_decimal(&mut text, size as u128);
        text.append(" B");
    }
    assert(text@ =~= size_text(size));
    text
}

} // verus!
