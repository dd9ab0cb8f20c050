//! Glyph tables for the background effects.  Each table is a function from
//! an unbounded selector to a glyph; the selector is folded modulo the
//! table's length, so every call is total.

use vstd::prelude::*;

verus! {

/// Glyphs used for the starfield.
pub open spec fn spec_star_char(i: int) -> char {
    let k = i % 6;
    if k == 0 { '.' }
    else if k == 1 { '*' }
    else if k == 2 { '+' }
    else if k == 3 { '·' }
    else if k == 4 { '✦' }
    else { '✧' }
}

pub fn star_char(i: u64) -> (c: char)
    ensures
        c == spec_star_char(i as int),
{
    let k = i % 6;
    if k == 0 { '.' }
    else if k == 1 { '*' }
    else if k == 2 { '+' }
    else if k == 3 { '·' }
    else if k == 4 { '✦' }
    else { '✧' }
}

/// Glyphs used for matrix rain: katakana, then digits.
pub open spec fn spec_matrix_char(i: int) -> char {
    let k = i % 30;
    if k == 0 { 'ア' }
    else if k == 1 { 'イ' }
    else if k == 2 { 'ウ' }
    else if k == 3 { 'エ' }
    else if k == 4 { 'オ' }
    else if k == 5 { 'カ' }
    else if k == 6 { 'キ' }
    else if k == 7 { 'ク' }
    else if k == 8 { 'ケ' }
    else if k == 9 { 'コ' }
    else if k == 10 { 'サ' }
    else if k == 11 { 'シ' }
    else if k == 12 { 'ス' }
    else if k == 13 { 'セ' }
    else if k == 14 { 'ソ' }
    else if k == 15 { 'タ' }
    else if k == 16 { 'チ' }
    else if k == 17 { 'ツ' }
    else if k == 18 { 'テ' }
    else if k == 19 { 'ト' }
    else if k == 20 { '0' }
    else if k == 21 { '1' }
    else if k == 22 { '2' }
    else if k == 23 { '3' }
    else if k == 24 { '4' }
    else if k == 25 { '5' }
    else if k == 26 { '6' }
    else if k == 27 { '7' }
    else if k == 28 { '8' }
    else { '9' }
}

pub fn matrix_char(i: u64) -> (c: char)
    ensures
        c == spec_matrix_char(i as int),
{
    let k = i % 30;
    if k == 0 { 'ア' }
    else if k == 1 { 'イ' }
    else if k == 2 { 'ウ' }
    else if k == 3 { 'エ' }
    else if k == 4 { 'オ' }
    else if k == 5 { 'カ' }
    else if k == 6 { 'キ' }
    else if k == 7 { 'ク' }
    else if k == 8 { 'ケ' }
    else if k == 9 { 'コ' }
    else if k == 10 { 'サ' }
    else if k == 11 { 'シ' }
    else if k == 12 { 'ス' }
    else if k == 13 { 'セ' }
    else if k == 14 { 'ソ' }
    else if k == 15 { 'タ' }
    else if k == 16 { 'チ' }
    else if k == 17 { 'ツ' }
    else if k == 18 { 'テ' }
    else if k == 19 { 'ト' }
    else if k == 20 { '0' }
    else if k == 21 { '1' }
    else if k == 22 { '2' }
    else if k == 23 { '3' }
    else if k == 24 { '4' }
    else if k == 25 { '5' }
    else if k == 26 { '6' }
    else if k == 27 { '7' }
    else if k == 28 { '8' }
    else { '9' }
}

/// Glyphs used for snowfall, three per size class.
pub open spec fn spec_snow_char(i: int) -> char {
    let k = i % 9;
    if k == 0 { '*' }
    else if k == 1 { '·' }
    else if k == 2 { '•' }
    else if k == 3 { '❄' }
    else if k == 4 { '❅' }
    else if k == 5 { '❆' }
    else if k == 6 { '✦' }
    else if k == 7 { '✧' }
    else { '°' }
}

pub fn snow_char(i: u64) -> (c: char)
    ensures
        c == spec_snow_char(i as int),
{
    let k = i % 9;
    if k == 0 { '*' }
    else if k == 1 { '·' }
    else if k == 2 { '•' }
    else if k == 3 { '❄' }
    else if k == 4 { '❅' }
    else if k == 5 { '❆' }
    else if k == 6 { '✦' }
    else if k == 7 { '✧' }
    else { '°' }
}

/// Glyphs used for frost crystals.
pub open spec fn spec_frost_char(i: int) -> char {
    let k = i % 7;
    if k == 0 { '·' }
    else if k == 1 { '•' }
    else if k == 2 { '*' }
    else if k == 3 { '×' }
    else if k == 4 { '✕' }
    else if k == 5 { '✱' }
    else { '░' }
}

pub fn frost_char(i: u64) -> (c: char)
    ensures
        c == spec_frost_char(i as int),
{
    let k = i % 7;
    if k == 0 { '·' }
    else if k == 1 { '•' }
    else if k == 2 { '*' }
    else if k == 3 { '×' }
    else if k == 4 { '✕' }
    else if k == 5 { '✱' }
    else { '░' }
}

/// Glyphs used for rain drops: vertical streaks.
pub open spec fn spec_rain_char(i: int) -> char {
    let k = i % 7;
    if k == 0 { '│' }
    else if k == 1 { '|' }
    else if k == 2 { '¦' }
    else if k == 3 { '┃' }
    else if k == 4 { '╏' }
    else if k == 5 { '┊' }
    else { '┆' }
}

pub fn rain_char(i: u64) -> (c: char)
    ensures
        c == spec_rain_char(i as int),
{
    let k = i % 7;
    if k == 0 { '│' }
    else if k == 1 { '|' }
    else if k == 2 { '¦' }
    else if k == 3 { '┃' }
    else if k == 4 { '╏' }
    else if k == 5 { '┊' }
    else { '┆' }
}

/// Glyphs used for heavy storm rain.
pub open spec fn spec_storm_rain_char(i: int) -> char {
    let k = i % 6;
    if k == 0 { '┃' }
    else if k == 1 { '║' }
    else if k == 2 { '│' }
    else if k == 3 { '|' }
    else if k == 4 { '/' }
    else { '\\' }
}

pub fn storm_rain_char(i: u64) -> (c: char)
    ensures
        c == spec_storm_rain_char(i as int),
{
    let k = i % 6;
    if k == 0 { '┃' }
    else if k == 1 { '║' }
    else if k == 2 { '│' }
    else if k == 3 { '|' }
    else if k == 4 { '/' }
    else { '\\' }
}

/// Glyphs used for sun rays and shimmer.
pub open spec fn spec_sun_char(i: int) -> char {
    let k = i % 7;
    if k == 0 { '·' }
    else if k == 1 { '•' }
    else if k == 2 { '*' }
    else if k == 3 { '✦' }
    else if k == 4 { '✧' }
    else if k == 5 { '○' }
    else { '◌' }
}

pub fn sun_char(i: u64) -> (c: char)
    ensures
        c == spec_sun_char(i as int),
{
    let k = i % 7;
    if k == 0 { '·' }
    else if k == 1 { '•' }
    else if k == 2 { '*' }
    else if k == 3 { '✦' }
    else if k == 4 { '✧' }
    else if k == 5 { '○' }
    else { '◌' }
}

/// Glyphs used for wind streaks: horizontal motion.
pub open spec fn spec_wind_char(i: int) -> char {
    let k = i % 8;
    if k == 0 { '─' }
    else if k == 1 { '-' }
    else if k == 2 { '~' }
    else if k == 3 { '∼' }
    else if k == 4 { '≈' }
    else if k == 5 { '━' }
    else if k == 6 { '╌' }
    else { '╍' }
}

pub fn wind_char(i: u64) -> (c: char)
    ensures
        c == spec_wind_char(i as int),
{
    let k = i % 8;
    if k == 0 { '─' }
    else if k == 1 { '-' }
    else if k == 2 { '~' }
    else if k == 3 { '∼' }
    else if k == 4 { '≈' }
    else if k == 5 { '━' }
    else if k == 6 { '╌' }
    else { '╍' }
}

/// Glyphs used for cloud puffs and density.
pub open spec fn spec_cloud_char(i: int) -> char {
    let k = i % 8;
    if k == 0 { '░' }
    else if k == 1 { '▒' }
    else if k == 2 { '▓' }
    else if k == 3 { '·' }
    else if k == 4 { '•' }
    else if k == 5 { '○' }
    else if k == 6 { '◌' }
    else { '◦' }
}

pub fn cloud_char(i: u64) -> (c: char)
    ensures
        c == spec_cloud_char(i as int),
{
    let k = i % 8;
    if k == 0 { '░' }
    else if k == 1 { '▒' }
    else if k == 2 { '▓' }
    else if k == 3 { '·' }
    else if k == 4 { '•' }
    else if k == 5 { '○' }
    else if k == 6 { '◌' }
    else { '◦' }
}

/// Glyphs used for fog and mist: soft wisps and dots.
pub open spec fn spec_fog_char(i: int) -> char {
    let k = i % 7;
    if k == 0 { '·' }
    else if k == 1 { '.' }
    else if k == 2 { '\'' }
    else if k == 3 { ':' }
    else if k == 4 { '°' }
    else if k == 5 { '∙' }
    else { ',' }
}

pub fn fog_char(i: u64) -> (c: char)
    ensures
        c == spec_fog_char(i as int),
{
    let k = i % 7;
    if k == 0 { '·' }
    else if k == 1 { '.' }
    else if k == 2 { '\'' }
    else if k == 3 { ':' }
    else if k == 4 { '°' }
    else if k == 5 { '∙' }
    else { ',' }
}

/// Glyphs used for data-flow particles.
pub open spec fn spec_flow_char(i: int) -> char {
    let k = i % 4;
    if k == 0 { '·' }
    else if k == 1 { '•' }
    else if k == 2 { '○' }
    else { '●' }
}

pub fn flow_char(i: u64) -> (c: char)
    ensures
        c == spec_flow_char(i as int),
{
    let k = i % 4;
    if k == 0 { '·' }
    else if k == 1 { '•' }
    else if k == 2 { '○' }
    else { '●' }
}

} // verus!
