//! The generic tree that the schematic and layout readers walk.

use crate::text::str_eq;
use vstd::prelude::*;

verus! {

/// A number as the document wrote it: an integer, or the bit pattern of an
/// IEEE 754 binary64 value.
#[derive(Clone, Copy, Debug, PartialEq, Eq, Structural)]
pub enum Number {
    Int(i64),
    Real(u64),
}

/// One node of a document tree.
#[derive(Debug)]
pub enum Sexpr {
    /// A bare word.
    Symbol(String),
    /// A quoted string.
    Str(String),
    /// An integer.
    Int(i64),
    /// A real number, as the bit pattern of its binary64 value.
    Real(u64),
    /// A parenthesised list.
    List(Vec<Sexpr>),
}

/// A position: x, y and rotation.
#[derive(Clone, Copy, Debug, PartialEq, Eq, Structural)]
pub struct Position {
    pub x: Number,
    pub y: Number,
    pub rotation: Number,
}

/// Why a document tree is not the expected document.
#[derive(Clone, Copy, Debug, PartialEq, Eq, Structural)]
pub enum FormatError {
    /// The root is not a list.
    RootNotList,
    /// The root list does not start with the expected word.
    RootMismatch,
}

impl Number {
    /// The number zero.
    pub open spec fn zero() -> Number {
        Number::Int(0)
    }
}

impl Sexpr {
    /// The text of a bare word.
    pub open spec fn sym_text(self) -> Option<Seq<char>> {
        match self {
            Sexpr::Symbol(s) => Some(s@),
            _ => None,
        }
    }

    /// The text of a quoted string.
    pub open spec fn str_text(self) -> Option<Seq<char>> {
        match self {
            Sexpr::Str(s) => Some(s@),
            _ => None,
        }
    }

    /// The value of an integer.
    pub open spec fn int_value(self) -> Option<i64> {
        match self {
            Sexpr::Int(i) => Some(i),
            _ => None,
        }
    }

    /// The value of a number, integer or real.
    pub open spec fn number_value(self) -> Option<Number> {
        match self {
            Sexpr::Int(i) => Some(Number::Int(i)),
            Sexpr::Real(bits) => Some(Number::Real(bits)),
            _ => None,
        }
    }

    /// The items of a list.
    pub open spec fn items(self) -> Option<Seq<Sexpr>> {
        match self {
            Sexpr::List(items) => Some(items@),
            _ => None,
        }
    }

    /// The text of a quoted string or of a bare word; empty for anything
    /// else.
    pub open spec fn text(self) -> Seq<char> {
        match self {
            Sexpr::Str(s) => s@,
            Sexpr::Symbol(s) => s@,
            _ => Seq::empty(),
        }
    }

    /// The text of a bare word.
    pub fn as_sym(&self) -> (r: Option<&str>)
        ensures
            match r {
                Some(s) => self.sym_text() == Some(s@),
                None => self.sym_text() is None,
            },
    {
        match self {
            Sexpr::Symbol(s) => Some(s.as_str()),
            _ => None,
        }
    }

    /// The text of a quoted string.
    pub fn as_str(&self) -> (r: Option<&str>)
        ensures
            match r {
                Some(s) => self.str_text() == Some(s@),
                None => self.str_text() is None,
            },
    {
        match self {
            Sexpr::Str(s) => Some(s.as_str()),
            _ => None,
        }
    }

    /// The value of an integer.
    pub fn as_int(&self) -> (r: Option<i64>)
        ensures
            r == self.int_value(),
    {
        match self {
            Sexpr::Int(i) => Some(*i),
            _ => None,
        }
    }

    /// The value of a number, integer or real.
    pub fn as_number(&self) -> (r: Option<Number>)
        ensures
            r == self.number_value(),
    {
        match self {
            Sexpr::Int(i) => Some(Number::Int(*i)),
            Sexpr::Real(bits) => Some(Number::Real(*bits)),
            _ => None,
        }
    }

    /// The items of a list.
    pub fn as_list(&self) -> (r: Option<&Vec<Sexpr>>)
        ensures
            match r {
                Some(items) => self.items() == Some(items@),
                None => self.items() is None,
            },
    {
        match self {
            Sexpr::List(items) => Some(items),
            _ => None,
        }
    }
}

/// The word that a list starts with, if it starts with one.
pub open spec fn tag_of(items: Seq<Sexpr>) -> Option<Seq<char>> {
    if items.len() > 0 {
        items[0].sym_text()
    } else {
        None
    }
}

/// Whether a list starts with the word `name`.
pub open spec fn tagged(items: Seq<Sexpr>, name: Seq<char>) -> bool {
    tag_of(items) == Some(name)
}

/// The text of the item at `index`; empty where the list is too short.
pub open spec fn text_at(items: Seq<Sexpr>, index: int) -> Seq<char> {
    if 0 <= index < items.len() {
        items[index].text()
    } else {
        Seq::empty()
    }
}

/// The number at `index`; zero where there is none.
pub open spec fn number_at(items: Seq<Sexpr>, index: int) -> Number {
    if 0 <= index < items.len() && items[index].number_value() is Some {
        items[index].number_value()->0
    } else {
        Number::zero()
    }
}

/// The bare word at `index`; empty where there is none.
pub open spec fn bare_word_at(items: Seq<Sexpr>, index: int) -> Seq<char> {
    if 0 <= index < items.len() && items[index].sym_text() is Some {
        items[index].sym_text()->0
    } else {
        Seq::empty()
    }
}

/// The position at the origin, not rotated.
pub open spec fn origin() -> Position {
    Position { x: Number::zero(), y: Number::zero(), rotation: Number::zero() }
}

/// The position that an `(at x y rotation)` list gives: each of the three
/// is zero where the list holds no number for it.
pub open spec fn position_of(items: Seq<Sexpr>) -> Position {
    Position { x: number_at(items, 1), y: number_at(items, 2), rotation: number_at(items, 3) }
}

/// Whether the item at `index` is the bare word `word`.
pub open spec fn word_at(items: Seq<Sexpr>, index: int, word: Seq<char>) -> bool {
    0 <= index < items.len() && items[index].sym_text() == Some(word)
}

/// The low 32 bits of an integer.
pub open spec fn low_u32(i: i64) -> u32 {
    i as u32
}

/// The word that a list starts with.
pub fn tag(items: &Vec<Sexpr>) -> (r: Option<&str>)
    ensures
        match r {
            Some(s) => tag_of(items@) == Some(s@),
            None => tag_of(items@) is None,
        },
{
    if items.len() > 0 {
        items[0].as_sym()
    } else {
        None
    }
}

/// Whether a list starts with the word `name`.
pub fn has_tag(items: &Vec<Sexpr>, name: &str) -> (b: bool)
    ensures
        b == tagged(items@, name@),
{
    match tag(items) {
        Some(s) => str_eq(s, name),
        None => false,
    }
}

/// The text of a quoted string or of a bare word; empty for anything else.
pub fn string_value(node: &Sexpr) -> (r: String)
    ensures
        r@ == node.text(),
{
    match node {
        Sexpr::Str(s) => s.clone(),
        Sexpr::Symbol(s) => s.clone(),
        _ => String::new(),
    }
}

/// The text of the item at `index`; empty where the list is too short.
pub fn string_at(items: &Vec<Sexpr>, index: usize) -> (r: String)
    ensures
        r@ == text_at(items@, index as int),
{
    if index < items.len() {
        string_value(&items[index])
    } else {
        String::new()
    }
}

/// The number at `index`; zero where there is none.
pub fn get_number(items: &Vec<Sexpr>, index: usize) -> (r: Number)
    ensures
        r == number_at(items@, index as int),
{
    if index < items.len() {
        match items[index].as_number() {
            Some(n) => n,
            None => Number::Int(0),
        }
    } else {
        Number::Int(0)
    }
}

/// The bare word at `index`; empty where there is none.
pub fn get_word(items: &Vec<Sexpr>, index: usize) -> (r: String)
    ensures
        r@ == bare_word_at(items@, index as int),
{
    if index < items.len() {
        match items[index].as_sym() {
            Some(s) => s.to_owned(),
            None => String::new(),
        }
    } else {
        String::new()
    }
}

/// The position at the origin, not rotated.
pub fn origin_position() -> (r: Position)
    ensures
        r == origin(),
{
    Position { x: Number::Int(0), y: Number::Int(0), rotation: Number::Int(0) }
}

/// The position that an `(at x y rotation)` list gives.
pub fn get_position(items: &Vec<Sexpr>) -> (r: Position)
    ensures
        r == position_of(items@),
{
    Position { x: get_number(items, 1), y: get_number(items, 2), rotation: get_number(items, 3) }
}

/// Whether the item at `index` is the bare word `word`.
pub fn is_word(items: &Vec<Sexpr>, index: usize, word: &str) -> (b: bool)
    ensures
        b == word_at(items@, index as int, word@),
{
    if index < items.len() {
        match items[index].as_sym() {
            Some(s) => str_eq(s, word),
            None => false,
        }
    } else {
        false
    }
}

/// The low 32 bits of an integer.
pub fn to_u32(i: i64) -> (r: u32)
    ensures
        r == low_u32(i),
{
    #[verifier::truncate]
    (i as u32)
}

} // verus!
