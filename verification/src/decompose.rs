//! Canonical decomposition of the characters whose decomposition begins with
//! an ASCII character (Unicode 14 data): letters with diacritics in the Latin
//! blocks, and a few ASCII singletons such as U+212A KELVIN SIGN. For each such
//! character the table gives the ASCII character that begins its canonical
//! (NFD) decomposition; every other character of the decomposition is a
//! combining mark.

use vstd::prelude::*;

verus! {

/// The base character of a decomposable character in U+0080..U+00FF.
pub open spec fn base_latin1(n: int) -> Option<char> {
    if (0xC0 <= n <= 0xC5) {
        Some('A')
    } else if n == 0xC7 {
        Some('C')
    } else if (0xC8 <= n <= 0xCB) {
        Some('E')
    } else if (0xCC <= n <= 0xCF) {
        Some('I')
    } else if n == 0xD1 {
        Some('N')
    } else if (0xD2 <= n <= 0xD6) {
        Some('O')
    } else if (0xD9 <= n <= 0xDC) {
        Some('U')
    } else if n == 0xDD {
        Some('Y')
    } else if (0xE0 <= n <= 0xE5) {
        Some('a')
    } else if n == 0xE7 {
        Some('c')
    } else if (0xE8 <= n <= 0xEB) {
        Some('e')
    } else if (0xEC <= n <= 0xEF) {
        Some('i')
    } else if n == 0xF1 {
        Some('n')
    } else if (0xF2 <= n <= 0xF6) {
        Some('o')
    } else if (0xF9 <= n <= 0xFC) {
        Some('u')
    } else if (0xFD <= n <= 0xFF && n % 2 == 1) {
        Some('y')
    } else {
        None
    }
}

/// The base character of a decomposable character in U+0100..U+017F.
pub open spec fn base_ext_a(n: int) -> Option<char> {
    if (0x100 <= n <= 0x104 && n % 2 == 0) {
        Some('A')
    } else if (0x106 <= n <= 0x10C && n % 2 == 0) {
        Some('C')
    } else if n == 0x10E {
        Some('D')
    } else if (0x112 <= n <= 0x11A && n % 2 == 0) {
        Some('E')
    } else if (0x11C <= n <= 0x122 && n % 2 == 0) {
        Some('G')
    } else if n == 0x124 {
        Some('H')
    } else if (0x128 <= n <= 0x130 && n % 2 == 0) {
        Some('I')
    } else if n == 0x134 {
        Some('J')
    } else if n == 0x136 {
        Some('K')
    } else if (0x139 <= n <= 0x13D && n % 2 == 1) {
        Some('L')
    } else if (0x143 <= n <= 0x147 && n % 2 == 1) {
        Some('N')
    } else if (0x14C <= n <= 0x150 && n % 2 == 0) {
        Some('O')
    } else if (0x154 <= n <= 0x158 && n % 2 == 0) {
        Some('R')
    } else if (0x15A <= n <= 0x160 && n % 2 == 0) {
        Some('S')
    } else if (0x162 <= n <= 0x164 && n % 2 == 0) {
        Some('T')
    } else if (0x168 <= n <= 0x172 && n % 2 == 0) {
        Some('U')
    } else if n == 0x174 {
        Some('W')
    } else if (0x176 <= n <= 0x178 && n % 2 == 0) {
        Some('Y')
    } else if (0x179 <= n <= 0x17D && n % 2 == 1) {
        Some('Z')
    } else if (0x101 <= n <= 0x105 && n % 2 == 1) {
        Some('a')
    } else if (0x107 <= n <= 0x10D && n % 2 == 1) {
        Some('c')
    } else if n == 0x10F {
        Some('d')
    } else if (0x113 <= n <= 0x11B && n % 2 == 1) {
        Some('e')
    } else if (0x11D <= n <= 0x123 && n % 2 == 1) {
        Some('g')
    } else if n == 0x125 {
        Some('h')
    } else if (0x129 <= n <= 0x12F && n % 2 == 1) {
        Some('i')
    } else if n == 0x135 {
        Some('j')
    } else if n == 0x137 {
        Some('k')
    } else if (0x13A <= n <= 0x13E && n % 2 == 0) {
        Some('l')
    } else if (0x144 <= n <= 0x148 && n % 2 == 0) {
        Some('n')
    } else if (0x14D <= n <= 0x151 && n % 2 == 1) {
        Some('o')
    } else if (0x155 <= n <= 0x159 && n % 2 == 1) {
        Some('r')
    } else if (0x15B <= n <= 0x161 && n % 2 == 1) {
        Some('s')
    } else if (0x163 <= n <= 0x165 && n % 2 == 1) {
        Some('t')
    } else if (0x169 <= n <= 0x173 && n % 2 == 1) {
        Some('u')
    } else if n == 0x175 {
        Some('w')
    } else if n == 0x177 {
        Some('y')
    } else if (0x17A <= n <= 0x17E && n % 2 == 0) {
        Some('z')
    } else {
        None
    }
}

/// The base character of a decomposable character in U+0180..U+024F.
pub open spec fn base_ext_b(n: int) -> Option<char> {
    if n == 0x1CD || (0x1DE <= n <= 0x1E0 && n % 2 == 0) || n == 0x1FA || (0x200 <= n <= 0x202 && n % 2 == 0) || n == 0x226 {
        Some('A')
    } else if (0x204 <= n <= 0x206 && n % 2 == 0) || n == 0x228 {
        Some('E')
    } else if n == 0x1E6 || n == 0x1F4 {
        Some('G')
    } else if n == 0x21E {
        Some('H')
    } else if n == 0x1CF || (0x208 <= n <= 0x20A && n % 2 == 0) {
        Some('I')
    } else if n == 0x1E8 {
        Some('K')
    } else if n == 0x1F8 {
        Some('N')
    } else if n == 0x1A0 || n == 0x1D1 || (0x1EA <= n <= 0x1EC && n % 2 == 0) || (0x20C <= n <= 0x20E && n % 2 == 0) || (0x22A <= n <= 0x230 && n % 2 == 0) {
        Some('O')
    } else if (0x210 <= n <= 0x212 && n % 2 == 0) {
        Some('R')
    } else if n == 0x218 {
        Some('S')
    } else if n == 0x21A {
        Some('T')
    } else if n == 0x1AF || (0x1D3 <= n <= 0x1DB && n % 2 == 1) || (0x214 <= n <= 0x216 && n % 2 == 0) {
        Some('U')
    } else if n == 0x232 {
        Some('Y')
    } else if n == 0x1CE || (0x1DF <= n <= 0x1E1 && n % 2 == 1) || n == 0x1FB || (0x201 <= n <= 0x203 && n % 2 == 1) || n == 0x227 {
        Some('a')
    } else if (0x205 <= n <= 0x207 && n % 2 == 1) || n == 0x229 {
        Some('e')
    } else if n == 0x1E7 || n == 0x1F5 {
        Some('g')
    } else if n == 0x21F {
        Some('h')
    } else if n == 0x1D0 || (0x209 <= n <= 0x20B && n % 2 == 1) {
        Some('i')
    } else if n == 0x1F0 {
        Some('j')
    } else if n == 0x1E9 {
        Some('k')
    } else if n == 0x1F9 {
        Some('n')
    } else if n == 0x1A1 || n == 0x1D2 || (0x1EB <= n <= 0x1ED && n % 2 == 1) || (0x20D <= n <= 0x20F && n % 2 == 1) || (0x22B <= n <= 0x231 && n % 2 == 1) {
        Some('o')
    } else if (0x211 <= n <= 0x213 && n % 2 == 1) {
        Some('r')
    } else if n == 0x219 {
        Some('s')
    } else if n == 0x21B {
        Some('t')
    } else if n == 0x1B0 || (0x1D4 <= n <= 0x1DC && n % 2 == 0) || (0x215 <= n <= 0x217 && n % 2 == 1) {
        Some('u')
    } else if n == 0x233 {
        Some('y')
    } else {
        None
    }
}

/// The base character of a decomposable character in U+1E00..U+1EFF.
pub open spec fn base_ext_add(n: int) -> Option<char> {
    if n == 0x1E00 || (0x1EA0 <= n <= 0x1EB6 && n % 2 == 0) {
        Some('A')
    } else if (0x1E02 <= n <= 0x1E06 && n % 2 == 0) {
        Some('B')
    } else if n == 0x1E08 {
        Some('C')
    } else if (0x1E0A <= n <= 0x1E12 && n % 2 == 0) {
        Some('D')
    } else if (0x1E14 <= n <= 0x1E1C && n % 2 == 0) || (0x1EB8 <= n <= 0x1EC6 && n % 2 == 0) {
        Some('E')
    } else if n == 0x1E1E {
        Some('F')
    } else if n == 0x1E20 {
        Some('G')
    } else if (0x1E22 <= n <= 0x1E2A && n % 2 == 0) {
        Some('H')
    } else if (0x1E2C <= n <= 0x1E2E && n % 2 == 0) || (0x1EC8 <= n <= 0x1ECA && n % 2 == 0) {
        Some('I')
    } else if (0x1E30 <= n <= 0x1E34 && n % 2 == 0) {
        Some('K')
    } else if (0x1E36 <= n <= 0x1E3C && n % 2 == 0) {
        Some('L')
    } else if (0x1E3E <= n <= 0x1E42 && n % 2 == 0) {
        Some('M')
    } else if (0x1E44 <= n <= 0x1E4A && n % 2 == 0) {
        Some('N')
    } else if (0x1E4C <= n <= 0x1E52 && n % 2 == 0) || (0x1ECC <= n <= 0x1EE2 && n % 2 == 0) {
        Some('O')
    } else if (0x1E54 <= n <= 0x1E56 && n % 2 == 0) {
        Some('P')
    } else if (0x1E58 <= n <= 0x1E5E && n % 2 == 0) {
        Some('R')
    } else if (0x1E60 <= n <= 0x1E68 && n % 2 == 0) {
        Some('S')
    } else if (0x1E6A <= n <= 0x1E70 && n % 2 == 0) {
        Some('T')
    } else if (0x1E72 <= n <= 0x1E7A && n % 2 == 0) || (0x1EE4 <= n <= 0x1EF0 && n % 2 == 0) {
        Some('U')
    } else if (0x1E7C <= n <= 0x1E7E && n % 2 == 0) {
        Some('V')
    } else if (0x1E80 <= n <= 0x1E88 && n % 2 == 0) {
        Some('W')
    } else if (0x1E8A <= n <= 0x1E8C && n % 2 == 0) {
        Some('X')
    } else if n == 0x1E8E || (0x1EF2 <= n <= 0x1EF8 && n % 2 == 0) {
        Some('Y')
    } else if (0x1E90 <= n <= 0x1E94 && n % 2 == 0) {
        Some('Z')
    } else if n == 0x1E01 || (0x1EA1 <= n <= 0x1EB7 && n % 2 == 1) {
        Some('a')
    } else if (0x1E03 <= n <= 0x1E07 && n % 2 == 1) {
        Some('b')
    } else if n == 0x1E09 {
        Some('c')
    } else if (0x1E0B <= n <= 0x1E13 && n % 2 == 1) {
        Some('d')
    } else if (0x1E15 <= n <= 0x1E1D && n % 2 == 1) || (0x1EB9 <= n <= 0x1EC7 && n % 2 == 1) {
        Some('e')
    } else if n == 0x1E1F {
        Some('f')
    } else if n == 0x1E21 {
        Some('g')
    } else if (0x1E23 <= n <= 0x1E2B && n % 2 == 1) || n == 0x1E96 {
        Some('h')
    } else if (0x1E2D <= n <= 0x1E2F && n % 2 == 1) || (0x1EC9 <= n <= 0x1ECB && n % 2 == 1) {
        Some('i')
    } else if (0x1E31 <= n <= 0x1E35 && n % 2 == 1) {
        Some('k')
    } else if (0x1E37 <= n <= 0x1E3D && n % 2 == 1) {
        Some('l')
    } else if (0x1E3F <= n <= 0x1E43 && n % 2 == 1) {
        Some('m')
    } else if (0x1E45 <= n <= 0x1E4B && n % 2 == 1) {
        Some('n')
    } else if (0x1E4D <= n <= 0x1E53 && n % 2 == 1) || (0x1ECD <= n <= 0x1EE3 && n % 2 == 1) {
        Some('o')
    } else if (0x1E55 <= n <= 0x1E57 && n % 2 == 1) {
        Some('p')
    } else if (0x1E59 <= n <= 0x1E5F && n % 2 == 1) {
        Some('r')
    } else if (0x1E61 <= n <= 0x1E69 && n % 2 == 1) {
        Some('s')
    } else if (0x1E6B <= n <= 0x1E71 && n % 2 == 1) || n == 0x1E97 {
        Some('t')
    } else if (0x1E73 <= n <= 0x1E7B && n % 2 == 1) || (0x1EE5 <= n <= 0x1EF1 && n % 2 == 1) {
        Some('u')
    } else if (0x1E7D <= n <= 0x1E7F && n % 2 == 1) {
        Some('v')
    } else if (0x1E81 <= n <= 0x1E89 && n % 2 == 1) || n == 0x1E98 {
        Some('w')
    } else if (0x1E8B <= n <= 0x1E8D && n % 2 == 1) {
        Some('x')
    } else if n == 0x1E8F || n == 0x1E99 || (0x1EF3 <= n <= 0x1EF9 && n % 2 == 1) {
        Some('y')
    } else if (0x1E91 <= n <= 0x1E95 && n % 2 == 1) {
        Some('z')
    } else {
        None
    }
}

/// The base character of a decomposable character in U+0250..U+1DFF.
pub open spec fn base_other(n: int) -> Option<char> {
    if n == 0x37E {
        Some(';')
    } else {
        None
    }
}

/// The base character of a decomposable character in U+1F00..U+2FFFF.
pub open spec fn base_other2(n: int) -> Option<char> {
    if n == 0x226E {
        Some('<')
    } else if n == 0x2260 {
        Some('=')
    } else if n == 0x226F {
        Some('>')
    } else if n == 0x212B {
        Some('A')
    } else if n == 0x212A {
        Some('K')
    } else if n == 0x1FEF {
        Some('`')
    } else {
        None
    }
}

/// The ASCII character that begins the canonical (NFD) decomposition of the
/// character with code `n`, if it has one: the base letter of a letter
/// with diacritics, or an ASCII singleton such as U+212A KELVIN SIGN.
pub open spec fn decomposition_base(n: int) -> Option<char> {
    if 0x80 <= n < 0x100 {
        base_latin1(n)
    } else if 0x100 <= n < 0x180 {
        base_ext_a(n)
    } else if 0x180 <= n < 0x250 {
        base_ext_b(n)
    } else if 0x1E00 <= n < 0x1F00 {
        base_ext_add(n)
    } else if 0x250 <= n < 0x1E00 {
        base_other(n)
    } else if 0x1F00 <= n < 0x30000 {
        base_other2(n)
    } else {
        None
    }
}

/// Every base character of the table is printable ASCII.
pub proof fn lemma_decomposition_base_printable(n: int)
    ensures
        decomposition_base(n) matches Some(c) ==> 0x20 <= c as u32 <= 0x7E,
{
}

fn base_latin1_exec(n: u32) -> (r: Option<char>)
    ensures
        r == base_latin1(n as int),
{
    if (0xC0 <= n && n <= 0xC5) {
        Some('A')
    } else if n == 0xC7 {
        Some('C')
    } else if (0xC8 <= n && n <= 0xCB) {
        Some('E')
    } else if (0xCC <= n && n <= 0xCF) {
        Some('I')
    } else if n == 0xD1 {
        Some('N')
    } else if (0xD2 <= n && n <= 0xD6) {
        Some('O')
    } else if (0xD9 <= n && n <= 0xDC) {
        Some('U')
    } else if n == 0xDD {
        Some('Y')
    } else if (0xE0 <= n && n <= 0xE5) {
        Some('a')
    } else if n == 0xE7 {
        Some('c')
    } else if (0xE8 <= n && n <= 0xEB) {
        Some('e')
    } else if (0xEC <= n && n <= 0xEF) {
        Some('i')
    } else if n == 0xF1 {
        Some('n')
    } else if (0xF2 <= n && n <= 0xF6) {
        Some('o')
    } else if (0xF9 <= n && n <= 0xFC) {
        Some('u')
    } else if (0xFD <= n && n <= 0xFF && n % 2 == 1) {
        Some('y')
    } else {
        None
    }
}

fn base_ext_a_exec(n: u32) -> (r: Option<char>)
    ensures
        r == base_ext_a(n as int),
{
    if (0x100 <= n && n <= 0x104 && n % 2 == 0) {
        Some('A')
    } else if (0x106 <= n && n <= 0x10C && n % 2 == 0) {
        Some('C')
    } else if n == 0x10E {
        Some('D')
    } else if (0x112 <= n && n <= 0x11A && n % 2 == 0) {
        Some('E')
    } else if (0x11C <= n && n <= 0x122 && n % 2 == 0) {
        Some('G')
    } else if n == 0x124 {
        Some('H')
    } else if (0x128 <= n && n <= 0x130 && n % 2 == 0) {
        Some('I')
    } else if n == 0x134 {
        Some('J')
    } else if n == 0x136 {
        Some('K')
    } else if (0x139 <= n && n <= 0x13D && n % 2 == 1) {
        Some('L')
    } else if (0x143 <= n && n <= 0x147 && n % 2 == 1) {
        Some('N')
    } else if (0x14C <= n && n <= 0x150 && n % 2 == 0) {
        Some('O')
    } else if (0x154 <= n && n <= 0x158 && n % 2 == 0) {
        Some('R')
    } else if (0x15A <= n && n <= 0x160 && n % 2 == 0) {
        Some('S')
    } else if (0x162 <= n && n <= 0x164 && n % 2 == 0) {
        Some('T')
    } else if (0x168 <= n && n <= 0x172 && n % 2 == 0) {
        Some('U')
    } else if n == 0x174 {
        Some('W')
    } else if (0x176 <= n && n <= 0x178 && n % 2 == 0) {
        Some('Y')
    } else if (0x179 <= n && n <= 0x17D && n % 2 == 1) {
        Some('Z')
    } else if (0x101 <= n && n <= 0x105 && n % 2 == 1) {
        Some('a')
    } else if (0x107 <= n && n <= 0x10D && n % 2 == 1) {
        Some('c')
    } else if n == 0x10F {
        Some('d')
    } else if (0x113 <= n && n <= 0x11B && n % 2 == 1) {
        Some('e')
    } else if (0x11D <= n && n <= 0x123 && n % 2 == 1) {
        Some('g')
    } else if n == 0x125 {
        Some('h')
    } else if (0x129 <= n && n <= 0x12F && n % 2 == 1) {
        Some('i')
    } else if n == 0x135 {
        Some('j')
    } else if n == 0x137 {
        Some('k')
    } else if (0x13A <= n && n <= 0x13E && n % 2 == 0) {
        Some('l')
    } else if (0x144 <= n && n <= 0x148 && n % 2 == 0) {
        Some('n')
    } else if (0x14D <= n && n <= 0x151 && n % 2 == 1) {
        Some('o')
    } else if (0x155 <= n && n <= 0x159 && n % 2 == 1) {
        Some('r')
    } else if (0x15B <= n && n <= 0x161 && n % 2 == 1) {
        Some('s')
    } else if (0x163 <= n && n <= 0x165 && n % 2 == 1) {
        Some('t')
    } else if (0x169 <= n && n <= 0x173 && n % 2 == 1) {
        Some('u')
    } else if n == 0x175 {
        Some('w')
    } else if n == 0x177 {
        Some('y')
    } else if (0x17A <= n && n <= 0x17E && n % 2 == 0) {
        Some('z')
    } else {
        None
    }
}

fn base_ext_b_exec(n: u32) -> (r: Option<char>)
    ensures
        r == base_ext_b(n as int),
{
    if n == 0x1CD || (0x1DE <= n && n <= 0x1E0 && n % 2 == 0) || n == 0x1FA || (0x200 <= n && n <= 0x202 && n % 2 == 0) || n == 0x226 {
        Some('A')
    } else if (0x204 <= n && n <= 0x206 && n % 2 == 0) || n == 0x228 {
        Some('E')
    } else if n == 0x1E6 || n == 0x1F4 {
        Some('G')
    } else if n == 0x21E {
        Some('H')
    } else if n == 0x1CF || (0x208 <= n && n <= 0x20A && n % 2 == 0) {
        Some('I')
    } else if n == 0x1E8 {
        Some('K')
    } else if n == 0x1F8 {
        Some('N')
    } else if n == 0x1A0 || n == 0x1D1 || (0x1EA <= n && n <= 0x1EC && n % 2 == 0) || (0x20C <= n && n <= 0x20E && n % 2 == 0) || (0x22A <= n && n <= 0x230 && n % 2 == 0) {
        Some('O')
    } else if (0x210 <= n && n <= 0x212 && n % 2 == 0) {
        Some('R')
    } else if n == 0x218 {
        Some('S')
    } else if n == 0x21A {
        Some('T')
    } else if n == 0x1AF || (0x1D3 <= n && n <= 0x1DB && n % 2 == 1) || (0x214 <= n && n <= 0x216 && n % 2 == 0) {
        Some('U')
    } else if n == 0x232 {
        Some('Y')
    } else if n == 0x1CE || (0x1DF <= n && n <= 0x1E1 && n % 2 == 1) || n == 0x1FB || (0x201 <= n && n <= 0x203 && n % 2 == 1) || n == 0x227 {
        Some('a')
    } else if (0x205 <= n && n <= 0x207 && n % 2 == 1) || n == 0x229 {
        Some('e')
    } else if n == 0x1E7 || n == 0x1F5 {
        Some('g')
    } else if n == 0x21F {
        Some('h')
    } else if n == 0x1D0 || (0x209 <= n && n <= 0x20B && n % 2 == 1) {
        Some('i')
    } else if n == 0x1F0 {
        Some('j')
    } else if n == 0x1E9 {
        Some('k')
    } else if n == 0x1F9 {
        Some('n')
    } else if n == 0x1A1 || n == 0x1D2 || (0x1EB <= n && n <= 0x1ED && n % 2 == 1) || (0x20D <= n && n <= 0x20F && n % 2 == 1) || (0x22B <= n && n <= 0x231 && n % 2 == 1) {
        Some('o')
    } else if (0x211 <= n && n <= 0x213 && n % 2 == 1) {
        Some('r')
    } else if n == 0x219 {
        Some('s')
    } else if n == 0x21B {
        Some('t')
    } else if n == 0x1B0 || (0x1D4 <= n && n <= 0x1DC && n % 2 == 0) || (0x215 <= n && n <= 0x217 && n % 2 == 1) {
        Some('u')
    } else if n == 0x233 {
        Some('y')
    } else {
        None
    }
}

fn base_ext_add_exec(n: u32) -> (r: Option<char>)
    ensures
        r == base_ext_add(n as int),
{
    if n == 0x1E00 || (0x1EA0 <= n && n <= 0x1EB6 && n % 2 == 0) {
        Some('A')
    } else if (0x1E02 <= n && n <= 0x1E06 && n % 2 == 0) {
        Some('B')
    } else if n == 0x1E08 {
        Some('C')
    } else if (0x1E0A <= n && n <= 0x1E12 && n % 2 == 0) {
        Some('D')
    } else if (0x1E14 <= n && n <= 0x1E1C && n % 2 == 0) || (0x1EB8 <= n && n <= 0x1EC6 && n % 2 == 0) {
        Some('E')
    } else if n == 0x1E1E {
        Some('F')
    } else if n == 0x1E20 {
        Some('G')
    } else if (0x1E22 <= n && n <= 0x1E2A && n % 2 == 0) {
        Some('H')
    } else if (0x1E2C <= n && n <= 0x1E2E && n % 2 == 0) || (0x1EC8 <= n && n <= 0x1ECA && n % 2 == 0) {
        Some('I')
    } else if (0x1E30 <= n && n <= 0x1E34 && n % 2 == 0) {
        Some('K')
    } else if (0x1E36 <= n && n <= 0x1E3C && n % 2 == 0) {
        Some('L')
    } else if (0x1E3E <= n && n <= 0x1E42 && n % 2 == 0) {
        Some('M')
    } else if (0x1E44 <= n && n <= 0x1E4A && n % 2 == 0) {
        Some('N')
    } else if (0x1E4C <= n && n <= 0x1E52 && n % 2 == 0) || (0x1ECC <= n && n <= 0x1EE2 && n % 2 == 0) {
        Some('O')
    } else if (0x1E54 <= n && n <= 0x1E56 && n % 2 == 0) {
        Some('P')
    } else if (0x1E58 <= n && n <= 0x1E5E && n % 2 == 0) {
        Some('R')
    } else if (0x1E60 <= n && n <= 0x1E68 && n % 2 == 0) {
        Some('S')
    } else if (0x1E6A <= n && n <= 0x1E70 && n % 2 == 0) {
        Some('T')
    } else if (0x1E72 <= n && n <= 0x1E7A && n % 2 == 0) || (0x1EE4 <= n && n <= 0x1EF0 && n % 2 == 0) {
        Some('U')
    } else if (0x1E7C <= n && n <= 0x1E7E && n % 2 == 0) {
        Some('V')
    } else if (0x1E80 <= n && n <= 0x1E88 && n % 2 == 0) {
        Some('W')
    } else if (0x1E8A <= n && n <= 0x1E8C && n % 2 == 0) {
        Some('X')
    } else if n == 0x1E8E || (0x1EF2 <= n && n <= 0x1EF8 && n % 2 == 0) {
        Some('Y')
    } else if (0x1E90 <= n && n <= 0x1E94 && n % 2 == 0) {
        Some('Z')
    } else if n == 0x1E01 || (0x1EA1 <= n && n <= 0x1EB7 && n % 2 == 1) {
        Some('a')
    } else if (0x1E03 <= n && n <= 0x1E07 && n % 2 == 1) {
        Some('b')
    } else if n == 0x1E09 {
        Some('c')
    } else if (0x1E0B <= n && n <= 0x1E13 && n % 2 == 1) {
        Some('d')
    } else if (0x1E15 <= n && n <= 0x1E1D && n % 2 == 1) || (0x1EB9 <= n && n <= 0x1EC7 && n % 2 == 1) {
        Some('e')
    } else if n == 0x1E1F {
        Some('f')
    } else if n == 0x1E21 {
        Some('g')
    } else if (0x1E23 <= n && n <= 0x1E2B && n % 2 == 1) || n == 0x1E96 {
        Some('h')
    } else if (0x1E2D <= n && n <= 0x1E2F && n % 2 == 1) || (0x1EC9 <= n && n <= 0x1ECB && n % 2 == 1) {
        Some('i')
    } else if (0x1E31 <= n && n <= 0x1E35 && n % 2 == 1) {
        Some('k')
    } else if (0x1E37 <= n && n <= 0x1E3D && n % 2 == 1) {
        Some('l')
    } else if (0x1E3F <= n && n <= 0x1E43 && n % 2 == 1) {
        Some('m')
    } else if (0x1E45 <= n && n <= 0x1E4B && n % 2 == 1) {
        Some('n')
    } else if (0x1E4D <= n && n <= 0x1E53 && n % 2 == 1) || (0x1ECD <= n && n <= 0x1EE3 && n % 2 == 1) {
        Some('o')
    } else if (0x1E55 <= n && n <= 0x1E57 && n % 2 == 1) {
        Some('p')
    } else if (0x1E59 <= n && n <= 0x1E5F && n % 2 == 1) {
        Some('r')
    } else if (0x1E61 <= n && n <= 0x1E69 && n % 2 == 1) {
        Some('s')
    } else if (0x1E6B <= n && n <= 0x1E71 && n % 2 == 1) || n == 0x1E97 {
        Some('t')
    } else if (0x1E73 <= n && n <= 0x1E7B && n % 2 == 1) || (0x1EE5 <= n && n <= 0x1EF1 && n % 2 == 1) {
        Some('u')
    } else if (0x1E7D <= n && n <= 0x1E7F && n % 2 == 1) {
        Some('v')
    } else if (0x1E81 <= n && n <= 0x1E89 && n % 2 == 1) || n == 0x1E98 {
        Some('w')
    } else if (0x1E8B <= n && n <= 0x1E8D && n % 2 == 1) {
        Some('x')
    } else if n == 0x1E8F || n == 0x1E99 || (0x1EF3 <= n && n <= 0x1EF9 && n % 2 == 1) {
        Some('y')
    } else if (0x1E91 <= n && n <= 0x1E95 && n % 2 == 1) {
        Some('z')
    } else {
        None
    }
}

fn base_other_exec(n: u32) -> (r: Option<char>)
    ensures
        r == base_other(n as int),
{
    if n == 0x37E {
        Some(';')
    } else {
        None
    }
}

fn base_other2_exec(n: u32) -> (r: Option<char>)
    ensures
        r == base_other2(n as int),
{
    if n == 0x226E {
        Some('<')
    } else if n == 0x2260 {
        Some('=')
    } else if n == 0x226F {
        Some('>')
    } else if n == 0x212B {
        Some('A')
    } else if n == 0x212A {
        Some('K')
    } else if n == 0x1FEF {
        Some('`')
    } else {
        None
    }
}

pub(crate) fn decomposition_base_exec(n: u32) -> (r: Option<char>)
    ensures
        r == decomposition_base(n as int),
{
    if 0x80 <= n && n < 0x100 {
        base_latin1_exec(n)
    } else if 0x100 <= n && n < 0x180 {
        base_ext_a_exec(n)
    } else if 0x180 <= n && n < 0x250 {
        base_ext_b_exec(n)
    } else if 0x1E00 <= n && n < 0x1F00 {
        base_ext_add_exec(n)
    } else if 0x250 <= n && n < 0x1E00 {
        base_other_exec(n)
    } else if 0x1F00 <= n && n < 0x30000 {
        base_other2_exec(n)
    } else {
        None
    }
}

} // verus!
