//! Loader for plain-text game-entity records: a lexer for the `@`-keyword
//! markup, a parser that builds typed entities (items, monsters, a player)
//! from the token stream, and the entity model itself.

use vstd::prelude::*;

pub mod item;
pub mod lexer;
pub mod monster;
pub mod parser;
pub mod player;
pub mod position;
pub mod rng;
pub mod text;
pub mod world;

verus! {

/// Clamps a mathematical integer into the range of `i32`.
pub open spec fn clamp_i32(v: int) -> int {
    if v < i32::MIN as int {
        i32::MIN as int
    } else if v > i32::MAX as int {
        i32::MAX as int
    } else {
        v
    }
}

/// Saturating addition on `i32`, proved against the mathematical clamp.
pub fn add_clamped(a: i32, b: i32) -> (r: i32)
    ensures
        r as int == clamp_i32(a as int + b as int),
{
    let s: i64 = a as i64 + b as i64;
    if s < i32::MIN as i64 {
        i32::MIN
    } else if s > i32::MAX as i64 {
        i32::MAX
    } else {
        s as i32
    }
}

/// Saturating subtraction on `i32`, proved against the mathematical clamp.
pub fn sub_clamped(a: i32, b: i32) -> (r: i32)
    ensures
        r as int == clamp_i32(a as int - b as int),
{
    let s: i64 = a as i64 - b as i64;
    if s < i32::MIN as i64 {
        i32::MIN
    } else if s > i32::MAX as i64 {
        i32::MAX
    } else {
        s as i32
    }
}

/// Saturating multiplication on `i32`, proved against the mathematical clamp.
pub fn mul_clamped(a: i32, b: i32) -> (r: i32)
    ensures
        r as int == clamp_i32(a as int * b as int),
{
    proof {
        assert(i64::MIN <= (a as int) * (b as int) <= i64::MAX) by (nonlinear_arith)
            requires
                i32::MIN <= a <= i32::MAX,
                i32::MIN <= b <= i32::MAX,
        ;
    }
    let s: i64 = a as i64 * b as i64;
    if s < i32::MIN as i64 {
        i32::MIN
    } else if s > i32::MAX as i64 {
        i32::MAX
    } else {
        s as i32
    }
}

} // verus!
