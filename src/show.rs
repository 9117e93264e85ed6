use vstd::prelude::*;

use crate::text::{decimal, hex, push_char, push_decimal, push_hex, push_signed_decimal, signed_decimal};

verus! {

/// A point on the integer plane.
pub struct Point {
    pub x: i64,
    pub y: i64,
}

/// `x: <x>, y: <y>`, each coordinate in signed decimal.
pub open spec fn point_text(x: int, y: int) -> Seq<char> {
    seq!['x', ':', ' '] + signed_decimal(x) + seq![',', ' ', 'y', ':', ' '] + signed_decimal(y)
}

impl Point {
    /// The point as `x: <x>, y: <y>`.
    pub fn render(&self) -> (r: String)
        ensures
            r@ == point_text(self.x as int, self.y as int),
    {
        let mut s = String::new();
        push_char(&mut s, 'x');
        push_char(&mut s, ':');
        push_char(&mut s, ' ');
        push_signed_decimal(&mut s, self.x);
        push_char(&mut s, ',');
        push_char(&mut s, ' ');
        push_char(&mut s, 'y');
        push_char(&mut s, ':');
        push_char(&mut s, ' ');
        push_signed_decimal(&mut s, self.y);
        assert(s@ =~= point_text(self.x as int, self.y as int));
        s
    }
}

/// A list of small signed integers, shown with the index of each.
pub struct CustomList(pub Vec<i8>);

/// The entries `<index>: <value>` of `vs`, separated by `, `.
pub open spec fn entries(vs: Seq<i8>) -> Seq<char>
    decreases vs.len(),
{
    if vs.len() == 0 {
        Seq::empty()
    } else {
        let i = vs.len() - 1;
        let sep = if i == 0 {
            Seq::<char>::empty()
        } else {
            seq![',', ' ']
        };
        entries(vs.drop_last()) + sep + decimal(i as nat) + seq![':', ' '] + signed_decimal(
            vs.last() as int,
        )
    }
}

/// The entries of `vs` between square brackets.
pub open spec fn custom_list_text(vs: Seq<i8>) -> Seq<char> {
    seq!['['] + entries(vs) + seq![']']
}

impl CustomList {
    /// The list as `[0: <first>, 1: <second>, ...]`.
    pub fn render(&self) -> (r: String)
        ensures
            r@ == custom_list_text(self.0@),
    {
        let mut s = String::new();
        push_char(&mut s, '[');
        let mut i: usize = 0;
        while i < self.0.len()
            invariant
                0 <= i <= self.0@.len(),
                s@ == seq!['['] + entries(self.0@.take(i as int)),
            decreases self.0@.len() - i,
        {
            let ghost before = s@;
            if i != 0 {
                push_char(&mut s, ',');
                push_char(&mut s, ' ');
            }
            push_decimal(&mut s, i as u64);
            push_char(&mut s, ':');
            push_char(&mut s, ' ');
            push_signed_decimal(&mut s, self.0[i] as i64);
            assert(self.0@.take(i + 1).drop_last() =~= self.0@.take(i as int));
            assert(s@ =~= seq!['['] + entries(self.0@.take(i + 1)));
            i += 1;
        }
        assert(self.0@.take(i as int) =~= self.0@);
        push_char(&mut s, ']');
        assert(s@ =~= custom_list_text(self.0@));
        s
    }
}

/// A colour by its red, green and blue channels.
pub struct Color {
    pub red: u8,
    pub green: u8,
    pub blue: u8,
}

/// One channel in hexadecimal: `00` for zero, a leading `0` before the digits
/// of a value below 17, and the bare digits otherwise.
pub open spec fn channel_text(v: nat) -> Seq<char> {
    if v == 0 {
        seq!['0', '0']
    } else if v < 17 {
        seq!['0'] + hex(v)
    } else {
        hex(v)
    }
}

/// `0x` followed by the three channels.
pub open spec fn color_text(red: nat, green: nat, blue: nat) -> Seq<char> {
    seq!['0', 'x'] + channel_text(red) + channel_text(green) + channel_text(blue)
}

/// Appends the text of one channel to `s`.
fn push_channel(s: &mut String, v: u8)
    ensures
        final(s)@ == old(s)@ + channel_text(v as nat),
{
    if v == 0 {
        push_char(s, '0');
        push_char(s, '0');
    } else if v < 17 {
        push_char(s, '0');
        push_hex(s, v as u64);
    } else {
        push_hex(s, v as u64);
    }
    assert(s@ =~= old(s)@ + channel_text(v as nat));
}

impl Color {
    /// The colour as `0x` followed by its channels in hexadecimal.
    pub fn render(&self) -> (r: String)
        ensures
            r@ == color_text(self.red as nat, self.green as nat, self.blue as nat),
    {
        let mut s = String::new();
        push_char(&mut s, '0');
        push_char(&mut s, 'x');
        push_channel(&mut s, self.red);
        push_channel(&mut s, self.green);
        push_channel(&mut s, self.blue);
        assert(s@ =~= color_text(self.red as nat, self.green as nat, self.blue as nat));
        s
    }
}

/// The outcome of an operation.
pub enum OperationStatus {
    Done,
    Error,
    Processed,
}

/// The label shown for each outcome.
pub open spec fn status_label(st: OperationStatus) -> Seq<char> {
    match st {
        OperationStatus::Done => "DONE"@,
        OperationStatus::Error => "ERROR"@,
        OperationStatus::Processed => "IN PROCESS"@,
    }
}

impl OperationStatus {
    /// The label of this outcome.
    pub fn label(&self) -> (r: &'static str)
        ensures
            r@ == status_label(*self),
    {
        match self {
            OperationStatus::Done => "DONE",
            OperationStatus::Error => "ERROR",
            OperationStatus::Processed => "IN PROCESS",
        }
    }
}

} // verus!
