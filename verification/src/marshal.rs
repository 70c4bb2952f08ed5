//! Plain values that cross the boundary: a string, an enumeration, an
//! array of numbers.
use vstd::prelude::*;

verus! {

/// Whether `text` can cross the boundary as a C string: it holds no NUL
/// character.
pub open spec fn crosses_as_c_string(text: Seq<char>) -> bool {
    forall|i: int| 0 <= i < text.len() ==> text[i] != '\0'
}

/// The characters of `string_in` in reverse order. What came in as a C
/// string can go back as one.
pub fn Strings(string_in: &str) -> (reversed: String)
    ensures
        reversed@ == string_in@.reverse(),
        crosses_as_c_string(string_in@) ==> crosses_as_c_string(reversed@),
{
    let mut chars: Vec<char> = Vec::new();
    for c in it: string_in.chars()
        invariant
            it.seq() == string_in@,
            chars@ == string_in@.take(it.index() as int),
    {
        chars.push(c);
    }
    let mut reversed = String::new();
    let mut i: usize = chars.len();
    while i > 0
        invariant
            i <= chars.len(),
            chars@ == string_in@,
            reversed@ == string_in@.reverse().take(chars.len() - i),
        decreases i,
    {
        i -= 1;
        reversed.push(chars[i]);
    }
    reversed
}

/// The colours that cross the boundary as small numbers.
#[derive(Clone, Copy, Debug, PartialEq, Eq, Structural)]
pub enum Color {
    Blue,
    Rust,
}

impl Color {
    /// The number that stands for the colour on the other side.
    pub open spec fn code(self) -> int {
        match self {
            Color::Blue => 0,
            Color::Rust => 1,
        }
    }

    /// The colour that `val` stands for. Only 0 and 1 stand for one.
    pub fn from(val: u8) -> (color: Color)
        requires
            val <= 1,
        ensures
            color.code() == val,
    {
        if val == 0 {
            Color::Blue
        } else {
            Color::Rust
        }
    }

    /// The number that stands for the colour, as a C `int`.
    pub fn to_c_int(self) -> (code: i32)
        ensures
            code == self.code(),
    {
        match self {
            Color::Blue => 0,
            Color::Rust => 1,
        }
    }
}

/// Takes the number of `Color::Blue` and answers with that of
/// `Color::Rust`. Any other number is a fault of the caller.
pub fn Enums(color: u8) -> (code: i32)
    requires
        color == Color::Blue.code(),
    ensures
        code == Color::Rust.code(),
{
    let received = Color::from(color);
    assert(received == Color::Blue);
    Color::Rust.to_c_int()
}

/// A run of numbers together with its length, as it is handed across the
/// boundary.
#[derive(Debug)]
pub struct Array {
    arr: Vec<i64>,
    len: u64,
}

impl View for Array {
    type V = Seq<i64>;

    closed spec fn view(&self) -> Seq<i64> {
        self.arr@
    }
}

impl Array {
    #[verifier::type_invariant]
    spec fn inv(self) -> bool {
        self.len == self.arr@.len()
    }

    /// The number of items.
    pub fn len(&self) -> (len: u64)
        ensures
            len == self@.len(),
    {
        proof {
            use_type_invariant(self);
        }
        self.len
    }

    /// The items, in order.
    pub fn items(&self) -> (items: &Vec<i64>)
        ensures
            items@ == self@,
    {
        &self.arr
    }

    /// Gives the items up, in order.
    pub fn into_vec(self) -> (items: Vec<i64>)
        ensures
            items@ == self@,
    {
        self.arr
    }
}

impl From<Vec<i64>> for Array {
    fn from(vec: Vec<i64>) -> (array: Array)
        ensures
            array@ == vec@,
    {
        let len = vec.len() as u64;
        Array { arr: vec, len }
    }
}

impl vstd::std_specs::convert::FromSpecImpl<Vec<i64>> for Array {
    open spec fn obeys_from_spec() -> bool {
        true
    }

    closed spec fn from_spec(vec: Vec<i64>) -> Array {
        Array { arr: vec, len: vec@.len() as u64 }
    }
}

/// The array of the numbers 1, 2 and 3.
pub fn Arrays() -> (array: Array)
    ensures
        array@ == seq![1i64, 2i64, 3i64],
{
    let items: Vec<i64> = vec![1, 2, 3];
    Array::from(items)
}

} // verus!
