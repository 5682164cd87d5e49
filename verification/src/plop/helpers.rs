//! The texts that the helpers of a template write for a colour.

use vstd::prelude::*;
use crate::color::component::{Component, IntegerComponent};
use crate::color::serialization::{digits_of, push_digits, text_of, to_text};
use crate::color::Rgba;

verus! {

/// The capital hexadecimal digit of a number below sixteen.
pub open spec fn hex_digit_of(number: int) -> u8 {
    if number < 10 {
        (48 + number) as u8
    } else {
        (55 + number) as u8
    }
}

/// The two capital hexadecimal digits of a byte.
pub open spec fn hex_pair_of(byte: int) -> Seq<u8> {
    seq![hex_digit_of(byte / 16), hex_digit_of(byte % 16)]
}

/// The byte nearest to a channel of `parts`.
pub open spec fn byte_of(parts: u16) -> int {
    IntegerComponent::of_parts(parts as int).0 as int
}

/// The six hexadecimal digits of red, green and blue.
pub open spec fn hex_digits_of(color: Rgba) -> Seq<u8> {
    hex_pair_of(byte_of(color.red.0)) + hex_pair_of(byte_of(color.green.0)) + hex_pair_of(
        byte_of(color.blue.0),
    )
}

/// `#RRGGBB`.
pub open spec fn hex_of(color: Rgba) -> Seq<u8> {
    seq![35u8] + hex_digits_of(color)
}

/// `#RRGGBBAA`.
pub open spec fn hexa_of(color: Rgba) -> Seq<u8> {
    seq![35u8] + hex_digits_of(color) + hex_pair_of(byte_of(color.alpha.0))
}

/// `RRGGBB`.
pub open spec fn vivid_of(color: Rgba) -> Seq<u8> {
    hex_digits_of(color)
}

/// `rgb(RRGGBB)`.
pub open spec fn hypr_of(color: Rgba) -> Seq<u8> {
    seq![114u8, 103u8, 98u8, 40u8] + hex_digits_of(color) + seq![41u8]
}

/// `rgba(RRGGBBAA)`.
pub open spec fn hypra_of(color: Rgba) -> Seq<u8> {
    seq![114u8, 103u8, 98u8, 97u8, 40u8] + hex_digits_of(color) + hex_pair_of(
        byte_of(color.alpha.0),
    ) + seq![41u8]
}

/// `rgb(r, g, b)` with red, green and blue as decimal bytes.
pub open spec fn rgb_of(color: Rgba) -> Seq<u8> {
    seq![114u8, 103u8, 98u8, 40u8] + digits_of(byte_of(color.red.0) as nat) + seq![44u8, 32u8]
        + digits_of(byte_of(color.green.0) as nat) + seq![44u8, 32u8] + digits_of(
        byte_of(color.blue.0) as nat,
    ) + seq![41u8]
}

/// The capital hexadecimal digit of a number below sixteen.
pub fn hex_digit(number: u8) -> (digit: u8)
    requires
        number < 16,
    ensures
        digit == hex_digit_of(number as int),
{
    if number < 10 {
        48 + number
    } else {
        55 + number
    }
}

/// Appends the two hexadecimal digits of the byte nearest to a channel.
pub fn push_hex_pair(out: &mut Vec<u8>, parts: u16)
    ensures
        final(out)@ == old(out)@ + hex_pair_of(byte_of(parts)),
{
    let byte: u8 = super::super::color::component::FloatingComponent(parts).to_integer_component().0;
    out.push(hex_digit(byte / 16));
    out.push(hex_digit(byte % 16));
    assert(final(out)@ =~= old(out)@ + hex_pair_of(byte_of(parts)));
}

/// Appends the six hexadecimal digits of red, green and blue.
pub fn push_hex_digits(out: &mut Vec<u8>, color: Rgba)
    ensures
        final(out)@ == old(out)@ + hex_digits_of(color),
{
    push_hex_pair(out, color.red.0);
    push_hex_pair(out, color.green.0);
    push_hex_pair(out, color.blue.0);
    assert(final(out)@ =~= old(out)@ + hex_digits_of(color));
}

/// Writes `#RRGGBB`.
pub fn hex(color: Rgba) -> (text: Vec<u8>)
    ensures
        text@ == hex_of(color),
{
    let mut text: Vec<u8> = Vec::new();
    text.push(35);
    assert(text@ =~= seq![35u8]);
    push_hex_digits(&mut text, color);
    text
}

/// Writes `#RRGGBBAA`.
pub fn hexa(color: Rgba) -> (text: Vec<u8>)
    ensures
        text@ == hexa_of(color),
{
    let mut text: Vec<u8> = Vec::new();
    text.push(35);
    assert(text@ =~= seq![35u8]);
    push_hex_digits(&mut text, color);
    push_hex_pair(&mut text, color.alpha.0);
    text
}

/// Writes `RRGGBB`.
pub fn vivid(color: Rgba) -> (text: Vec<u8>)
    ensures
        text@ == vivid_of(color),
{
    let mut text: Vec<u8> = Vec::new();
    push_hex_digits(&mut text, color);
    assert(text@ =~= vivid_of(color));
    text
}

/// Writes `rgb(RRGGBB)`.
pub fn hypr(color: Rgba) -> (text: Vec<u8>)
    ensures
        text@ == hypr_of(color),
{
    let mut text: Vec<u8> = Vec::new();
    text.push(114);
    text.push(103);
    text.push(98);
    text.push(40);
    assert(text@ =~= seq![114u8, 103u8, 98u8, 40u8]);
    push_hex_digits(&mut text, color);
    text.push(41);
    assert(text@ =~= hypr_of(color));
    text
}

/// Writes `rgba(RRGGBBAA)`.
pub fn hypra(color: Rgba) -> (text: Vec<u8>)
    ensures
        text@ == hypra_of(color),
{
    let mut text: Vec<u8> = Vec::new();
    text.push(114);
    text.push(103);
    text.push(98);
    text.push(97);
    text.push(40);
    assert(text@ =~= seq![114u8, 103u8, 98u8, 97u8, 40u8]);
    push_hex_digits(&mut text, color);
    push_hex_pair(&mut text, color.alpha.0);
    text.push(41);
    assert(text@ =~= hypra_of(color));
    text
}

/// Writes `rgb(r, g, b)`.
pub fn rgb(color: Rgba) -> (text: Vec<u8>)
    ensures
        text@ == rgb_of(color),
{
    let mut text: Vec<u8> = Vec::new();
    text.push(114);
    text.push(103);
    text.push(98);
    text.push(40);
    assert(text@ =~= seq![114u8, 103u8, 98u8, 40u8]);
    push_digits(&mut text, color.red.to_integer_component().0 as u32);
    text.push(44);
    text.push(32);
    let ghost after_red = seq![114u8, 103u8, 98u8, 40u8] + digits_of(byte_of(color.red.0) as nat)
        + seq![44u8, 32u8];
    assert(text@ =~= after_red);
    push_digits(&mut text, color.green.to_integer_component().0 as u32);
    text.push(44);
    text.push(32);
    let ghost after_green = after_red + digits_of(byte_of(color.green.0) as nat) + seq![
        44u8,
        32u8,
    ];
    assert(text@ =~= after_green);
    push_digits(&mut text, color.blue.to_integer_component().0 as u32);
    text.push(41);
    assert(text@ =~= rgb_of(color));
    text
}

/// Writes `rgba(r, g, b, a)`.
pub fn rgba(color: Rgba) -> (text: Vec<u8>)
    ensures
        text@ == text_of(color),
{
    to_text(color)
}

/// The helper that writes a colour as `#RRGGBBAA`.
#[derive(Debug, Clone, Copy)]
pub struct HexHelper;

impl HexHelper {
    pub fn render(&self, color: Rgba) -> (text: Vec<u8>)
        ensures
            text@ == hexa_of(color),
    {
        hexa(color)
    }
}

/// The helper that writes a colour as `rgba(r, g, b, a)`.
#[derive(Debug, Clone, Copy)]
pub struct RgbaHelper;

impl RgbaHelper {
    pub fn render(&self, color: Rgba) -> (text: Vec<u8>)
        ensures
            text@ == text_of(color),
    {
        to_text(color)
    }
}

} // verus!
