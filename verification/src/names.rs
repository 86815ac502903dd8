//! The names of the files by which the grid is drawn, and of the folder
//! that holds them.

use crate::config::Config;
use crate::grid::Cell;
use vstd::arithmetic::div_mod::lemma_fundamental_div_mod;
use vstd::arithmetic::div_mod::lemma_fundamental_div_mod_converse;
use vstd::arithmetic::div_mod::lemma_mod_bound;
use vstd::prelude::*;
use vstd::string::StringExecFns;
use vstd::string::StrSliceExecFns;

verus! {

/// The character of a decimal digit.
pub open spec fn digit(d: nat) -> char
    recommends
        d < 10,
{
    if d == 0 {
        '0'
    } else if d == 1 {
        '1'
    } else if d == 2 {
        '2'
    } else if d == 3 {
        '3'
    } else if d == 4 {
        '4'
    } else if d == 5 {
        '5'
    } else if d == 6 {
        '6'
    } else if d == 7 {
        '7'
    } else if d == 8 {
        '8'
    } else {
        '9'
    }
}

/// A number written in decimal, without leading zeros.
pub open spec fn decimal(n: nat) -> Seq<char>
    decreases n,
{
    if n < 10 {
        seq![digit(n)]
    } else {
        decimal(n / 10).push(digit(n % 10))
    }
}

/// What every file of the game begins with.
pub open spec fn spec_prefix() -> Seq<char> {
    "ds_"@
}

/// The name of the file of a cell: made of its row and its column, in
/// this order.
pub open spec fn spec_cell_file_name(cell: Cell) -> Seq<char> {
    "ds_p"@ + decimal(cell.y as nat) + "-"@ + decimal(cell.x as nat) + ".bmp"@
}

/// The name of a decoy file: made of its index.
pub open spec fn spec_decoy_file_name(index: u32) -> Seq<char> {
    "ds_o"@ + decimal(index as nat) + ".bmp"@
}

/// The text of one decimal digit.
fn digit_text(d: u32) -> (text: &'static str)
    requires
        d < 10,
    ensures
        text@ == seq![digit(d as nat)],
{
    proof {
        reveal_strlit("0");
        reveal_strlit("1");
        reveal_strlit("2");
        reveal_strlit("3");
        reveal_strlit("4");
        reveal_strlit("5");
        reveal_strlit("6");
        reveal_strlit("7");
        reveal_strlit("8");
        reveal_strlit("9");
    }
    let text: &'static str = match d {
        0 => "0",
        1 => "1",
        2 => "2",
        3 => "3",
        4 => "4",
        5 => "5",
        6 => "6",
        7 => "7",
        8 => "8",
        _ => "9",
    };
    assert(text@ =~= seq![digit(d as nat)]);
    text
}

/// Writes `n` in decimal at the end of `text`.
pub fn append_decimal(text: &mut String, n: u32)
    ensures
        final(text)@ == old(text)@ + decimal(n as nat),
    decreases n,
{
    if n >= 10 {
        append_decimal(text, n / 10);
    }
    text.append(digit_text(n % 10));
    proof {
        assert(final(text)@ =~= old(text)@ + decimal(n as nat));
    }
}

/// The name of the file by which `cell` is drawn.
pub fn cell_file_name(cell: Cell) -> (name: String)
    ensures
        name@ == spec_cell_file_name(cell),
{
    let mut name = String::from_str("ds_p");
    append_decimal(&mut name, cell.y);
    name.append("-");
    append_decimal(&mut name, cell.x);
    name.append(".bmp");
    name
}

/// The name of the decoy file of the given index.
pub fn decoy_file_name(index: u32) -> (name: String)
    ensures
        name@ == spec_decoy_file_name(index),
{
    let mut name = String::from_str("ds_o");
    append_decimal(&mut name, index);
    name.append(".bmp");
    name
}

/// Whether a file of this name is one of the game's: it is if its name
/// begins with `ds_`.
pub fn is_render_file(name: &str) -> (stale: bool)
    ensures
        stale == spec_prefix().is_prefix_of(name@),
{
    proof {
        reveal_strlit("ds_");
    }
    if name.unicode_len() < 3 {
        return false;
    }
    let stale = name.get_char(0) == 'd' && name.get_char(1) == 's' && name.get_char(2) == '_';
    proof {
        let start = name@.subrange(0, 3);
        if stale {
            assert(start =~= spec_prefix());
        } else {
            assert(start[0] == name@[0] && start[1] == name@[1] && start[2] == name@[2]);
        }
    }
    stale
}

/// Whether an entry of the game's folder is removed before a new game
/// starts: it is if it is a file and its name is one of the game's.
pub fn is_stale(is_file: bool, name: &str) -> (stale: bool)
    ensures
        stale == (is_file && spec_prefix().is_prefix_of(name@)),
{
    is_file && is_render_file(name)
}

/// The name of the folder on the desktop in which the game is drawn.
pub fn folder_name() -> (name: &'static str)
    ensures
        name@ == "snake"@,
{
    "snake"
}

/// The number of blank files that are written before a game starts: one
/// for each decoy and one for each cell.
pub open spec fn spec_startup_count(config: Config) -> nat {
    (config.spec_offset() + config.spec_width() * config.spec_height()) as nat
}

/// The name of the `i`-th blank file that is written before a game starts:
/// the decoys come first, by their index, and then the cells, row after
/// row and in each row column after column.
pub open spec fn spec_startup_name(config: Config, i: int) -> Seq<char> {
    if i < config.spec_offset() {
        spec_decoy_file_name(i as u32)
    } else {
        let k = i - config.spec_offset();
        spec_cell_file_name(
            Cell { x: (k % config.spec_width() as int) as u32, y: (k / config.spec_width() as int) as u32 },
        )
    }
}

/// The names of the blank files that are written before a game starts, in
/// the order in which they are written.
pub fn startup_file_names(config: &Config) -> (names: Vec<String>)
    requires
        spec_startup_count(*config) <= usize::MAX,
    ensures
        names@.len() == spec_startup_count(*config),
        forall|i: int|
            0 <= i < names@.len() ==> (#[trigger] names@[i])@ == spec_startup_name(*config, i),
{
    let offset: u32 = config.offset();
    let width: u32 = config.width();
    let height: u32 = config.height();
    let mut names: Vec<String> = Vec::new();
    let mut o: u32 = 0;
    while o < offset
        invariant
            o <= offset,
            offset == config.spec_offset(),
            names@.len() == o,
            forall|i: int|
                0 <= i < names@.len() ==> (#[trigger] names@[i])@ == spec_startup_name(*config, i),
        decreases offset - o,
    {
        names.push(decoy_file_name(o));
        o = o + 1;
    }
    let mut y: u32 = 0;
    while y < height
        invariant
            y <= height,
            offset == config.spec_offset(),
            width == config.spec_width(),
            height == config.spec_height(),
            names@.len() == offset + y * width,
            forall|i: int|
                0 <= i < names@.len() ==> (#[trigger] names@[i])@ == spec_startup_name(*config, i),
        decreases height - y,
    {
        let mut x: u32 = 0;
        while x < width
            invariant
                x <= width,
                y < height,
                offset == config.spec_offset(),
                width == config.spec_width(),
                height == config.spec_height(),
                names@.len() == offset + y * width + x,
                forall|i: int|
                    0 <= i < names@.len() ==> (#[trigger] names@[i])@ == spec_startup_name(
                        *config,
                        i,
                    ),
            decreases width - x,
        {
            proof {
                lemma_fundamental_div_mod_converse(y * width + x, width as int, y as int, x as int);
            }
            names.push(cell_file_name(Cell { x, y }));
            x = x + 1;
        }
        assert(offset + y * width + width == offset + (y + 1) * width) by (nonlinear_arith);
        y = y + 1;
    }
    assert(height * width == width * height) by (nonlinear_arith);
    names
}

/// Every file that the game writes is one that `is_render_file` knows as
/// the game's own.
pub proof fn lemma_names_have_prefix(cell: Cell, index: u32)
    ensures
        spec_prefix().is_prefix_of(spec_cell_file_name(cell)),
        spec_prefix().is_prefix_of(spec_decoy_file_name(index)),
{
    reveal_strlit("ds_");
    reveal_strlit("ds_p");
    reveal_strlit("ds_o");
    assert(spec_cell_file_name(cell).subrange(0, 3) =~= spec_prefix());
    assert(spec_decoy_file_name(index).subrange(0, 3) =~= spec_prefix());
}

/// Whether a character is one of the ten decimal digits.
pub open spec fn is_digit(c: char) -> bool {
    exists|d: nat| d < 10 && digit(d) == c
}

/// A number in decimal has at least one character, and all of them are
/// digits.
pub proof fn lemma_decimal_digits(n: nat)
    ensures
        decimal(n).len() >= 1,
        forall|i: int| 0 <= i < decimal(n).len() ==> is_digit(#[trigger] decimal(n)[i]),
    decreases n,
{
    if n < 10 {
        assert(is_digit(digit(n)));
    } else {
        lemma_decimal_digits(n / 10);
        assert(is_digit(digit(n % 10)));
        assert forall|i: int| 0 <= i < decimal(n).len() implies is_digit(
            #[trigger] decimal(n)[i],
        ) by {
            if i < decimal(n / 10).len() {
                assert(decimal(n)[i] == decimal(n / 10)[i]);
            }
        }
    }
}

/// Two numbers with the same decimal form are the same number.
pub proof fn lemma_decimal_injective(a: nat, b: nat)
    requires
        decimal(a) == decimal(b),
    ensures
        a == b,
    decreases a,
{
    lemma_decimal_digits(a / 10);
    lemma_decimal_digits(b / 10);
    if a < 10 {
        assert(decimal(a).len() == 1);
        assert(b < 10);
        assert(decimal(a)[0] == digit(a));
        assert(decimal(b)[0] == digit(b));
        assert(digit(a) == digit(b));
    } else {
        assert(decimal(a).len() >= 2);
        assert(b >= 10);
        assert(decimal(a).drop_last() =~= decimal(a / 10));
        assert(decimal(b).drop_last() =~= decimal(b / 10));
        assert(decimal(a).last() == digit(a % 10));
        assert(decimal(b).last() == digit(b % 10));
        lemma_decimal_injective(a / 10, b / 10);
        assert(a / 10 == b / 10);
        assert(a % 10 == b % 10);
    }
}

/// Two texts that begin with a number in decimal and go on with a
/// character that is no digit begin with the same number if they are the
/// same text.
proof fn lemma_decimal_then_rest(a: nat, rest_a: Seq<char>, b: nat, rest_b: Seq<char>)
    requires
        decimal(a) + rest_a == decimal(b) + rest_b,
        rest_a.len() >= 1 && !is_digit(rest_a[0]),
        rest_b.len() >= 1 && !is_digit(rest_b[0]),
    ensures
        a == b,
        rest_a == rest_b,
{
    let da = decimal(a);
    let db = decimal(b);
    let whole = da + rest_a;
    lemma_decimal_digits(a);
    lemma_decimal_digits(b);
    if da.len() < db.len() {
        assert(whole[da.len() as int] == rest_a[0]);
        assert(whole[da.len() as int] == db[da.len() as int]);
    }
    if db.len() < da.len() {
        assert(whole[db.len() as int] == rest_b[0]);
        assert(whole[db.len() as int] == da[db.len() as int]);
    }
    assert(da =~= whole.subrange(0, da.len() as int));
    assert(db =~= whole.subrange(0, db.len() as int));
    assert(rest_a =~= whole.subrange(da.len() as int, whole.len() as int));
    assert(rest_b =~= whole.subrange(db.len() as int, whole.len() as int));
    lemma_decimal_injective(a, b);
}

/// The characters that stand between and behind the numbers of a file's
/// name are no digits.
proof fn lemma_marks_are_no_digits()
    ensures
        !is_digit('-'),
        !is_digit('.'),
{
}

/// Different cells are drawn by files of different names.
pub proof fn lemma_cell_file_names_differ(a: Cell, b: Cell)
    requires
        spec_cell_file_name(a) == spec_cell_file_name(b),
    ensures
        a == b,
{
    reveal_strlit("ds_p");
    reveal_strlit("-");
    reveal_strlit(".bmp");
    lemma_marks_are_no_digits();
    let tail_a = "-"@ + decimal(a.x as nat) + ".bmp"@;
    let tail_b = "-"@ + decimal(b.x as nat) + ".bmp"@;
    let body_a = decimal(a.y as nat) + tail_a;
    let body_b = decimal(b.y as nat) + tail_b;
    assert(spec_cell_file_name(a) =~= "ds_p"@ + body_a);
    assert(spec_cell_file_name(b) =~= "ds_p"@ + body_b);
    assert(body_a =~= spec_cell_file_name(a).subrange(4, spec_cell_file_name(a).len() as int));
    assert(body_b =~= spec_cell_file_name(b).subrange(4, spec_cell_file_name(b).len() as int));
    assert(tail_a[0] == '-');
    assert(tail_b[0] == '-');
    lemma_decimal_then_rest(a.y as nat, tail_a, b.y as nat, tail_b);
    let end_a = decimal(a.x as nat) + ".bmp"@;
    let end_b = decimal(b.x as nat) + ".bmp"@;
    assert(end_a =~= tail_a.subrange(1, tail_a.len() as int));
    assert(end_b =~= tail_b.subrange(1, tail_b.len() as int));
    assert(".bmp"@[0] == '.');
    lemma_decimal_then_rest(a.x as nat, ".bmp"@, b.x as nat, ".bmp"@);
}

/// Different decoys have files of different names.
pub proof fn lemma_decoy_file_names_differ(a: u32, b: u32)
    requires
        spec_decoy_file_name(a) == spec_decoy_file_name(b),
    ensures
        a == b,
{
    reveal_strlit("ds_o");
    reveal_strlit(".bmp");
    lemma_marks_are_no_digits();
    let end_a = decimal(a as nat) + ".bmp"@;
    let end_b = decimal(b as nat) + ".bmp"@;
    assert(spec_decoy_file_name(a) =~= "ds_o"@ + end_a);
    assert(spec_decoy_file_name(b) =~= "ds_o"@ + end_b);
    assert(end_a =~= spec_decoy_file_name(a).subrange(4, spec_decoy_file_name(a).len() as int));
    assert(end_b =~= spec_decoy_file_name(b).subrange(4, spec_decoy_file_name(b).len() as int));
    assert(".bmp"@[0] == '.');
    lemma_decimal_then_rest(a as nat, ".bmp"@, b as nat, ".bmp"@);
}

/// No decoy has the name of a cell's file.
pub proof fn lemma_decoy_is_no_cell(index: u32, cell: Cell)
    ensures
        spec_decoy_file_name(index) != spec_cell_file_name(cell),
{
    reveal_strlit("ds_o");
    reveal_strlit("ds_p");
    assert(spec_decoy_file_name(index)[3] == 'o');
    assert(spec_cell_file_name(cell)[3] == 'p');
}

/// The blank files that are written before a game starts all have
/// different names: as many files stand in the folder afterwards as there
/// are decoys and cells.
pub proof fn lemma_startup_names_differ(config: Config, i: int, j: int)
    requires
        0 <= i < spec_startup_count(config),
        0 <= j < spec_startup_count(config),
        spec_startup_name(config, i) == spec_startup_name(config, j),
    ensures
        i == j,
{
    let offset = config.spec_offset() as int;
    let width = config.spec_width() as int;
    let height = config.spec_height() as int;
    if i < offset && j < offset {
        lemma_decoy_file_names_differ(i as u32, j as u32);
    } else if i < offset {
        let cell = lemma_startup_cell(config, j);
        lemma_decoy_is_no_cell(i as u32, cell);
    } else if j < offset {
        let cell = lemma_startup_cell(config, i);
        lemma_decoy_is_no_cell(j as u32, cell);
    } else {
        let cell_i = lemma_startup_cell(config, i);
        let cell_j = lemma_startup_cell(config, j);
        lemma_cell_file_names_differ(cell_i, cell_j);
        lemma_fundamental_div_mod(i - offset, width);
        lemma_fundamental_div_mod(j - offset, width);
    }
}

/// Behind the decoys, the `i`-th blank file is that of a cell of the grid:
/// the cells are counted row after row.
proof fn lemma_startup_cell(config: Config, i: int) -> (cell: Cell)
    requires
        config.spec_offset() <= i < spec_startup_count(config),
    ensures
        cell.in_grid(config),
        cell.x == (i - config.spec_offset()) % (config.spec_width() as int),
        cell.y == (i - config.spec_offset()) / (config.spec_width() as int),
        spec_startup_name(config, i) == spec_cell_file_name(cell),
{
    let k = i - config.spec_offset();
    let width = config.spec_width() as int;
    let height = config.spec_height() as int;
    assert(width > 0) by (nonlinear_arith)
        requires
            0 <= k < width * height,
            width >= 0,
    ;
    lemma_cell_index_in_grid(k, width, height);
    Cell { x: (k % width) as u32, y: (k / width) as u32 }
}

/// The `k`-th cell of a grid, counted row after row, has a column and a
/// row of the grid.
proof fn lemma_cell_index_in_grid(k: int, width: int, height: int)
    requires
        0 <= k < width * height,
        width > 0,
    ensures
        0 <= k % width < width,
        0 <= k / width < height,
{
    lemma_fundamental_div_mod(k, width);
    lemma_mod_bound(k, width);
    assert(0 <= k / width < height) by (nonlinear_arith)
        requires
            0 <= k < width * height,
            width > 0,
            k == width * (k / width) + k % width,
            0 <= k % width < width,
    ;
}

} // verus!
