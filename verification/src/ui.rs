use vstd::prelude::*;
use crate::components::GameData;
use crate::constants::{LEVEL_COUNT, START_LIVES};
use crate::states::GameState;

verus! {

// ── Moving between screens ───────────────────────────────────────────

/// A new game is started from the main menu: progress starts over.
pub fn main_menu_start(data: &mut GameData) -> (next: GameState)
    ensures
        *final(data) == GameData::spec_new_game(),
        next == GameState::Playing,
{
    data.score = 0;
    data.highscore = 0;
    data.lives = START_LIVES;
    data.level = 1;
    GameState::Playing
}

/// A new game is started from the game-over screen: progress starts over,
/// but the high score is kept.
pub fn game_over_restart(data: &mut GameData) -> (next: GameState)
    ensures
        *final(data) == (GameData { highscore: old(data).highscore, ..GameData::spec_new_game() }),
        next == GameState::Playing,
{
    data.score = 0;
    data.lives = START_LIVES;
    data.level = 1;
    GameState::Playing
}

/// Where the pause after a death leads: the game is over once no lives are
/// left, else the level is played again.
pub open spec fn pause_outcome(d: GameData) -> GameState {
    if d.lives <= 0 {
        GameState::GameOver
    } else {
        GameState::Playing
    }
}

/// The pause after a death is over.
pub fn death_pause_over(data: &GameData) -> (next: GameState)
    ensures
        next == pause_outcome(*data),
{
    if data.lives <= 0 {
        GameState::GameOver
    } else {
        GameState::Playing
    }
}

/// Title of the death screen.
pub fn death_title(lives: i32) -> (res: &'static str)
    ensures
        res@ == (if lives > 0 {
            "YOU DIED"@
        } else {
            "GAME OVER"@
        }),
{
    if lives > 0 {
        "YOU DIED"
    } else {
        "GAME OVER"
    }
}

/// The level that follows `level`: after the fourth comes the first again.
pub open spec fn next_level(level: int) -> int {
    if level + 1 > LEVEL_COUNT {
        1
    } else {
        level + 1
    }
}

/// A level is complete: the level number moves on, wrapping after the last.
pub fn advance_level(data: &mut GameData)
    requires
        old(data).level < u32::MAX,
    ensures
        *final(data) == (GameData { level: next_level(old(data).level as int) as u32, ..*old(data) }),
        1 <= final(data).level <= LEVEL_COUNT,
{
    data.level = data.level + 1;
    if data.level > LEVEL_COUNT {
        data.level = 1;
    }
}

/// Completing levels cycles through all four: four completions lead back to
/// the level one started from, and none of the three in between does.
pub proof fn lemma_levels_cycle(level: int)
    requires
        1 <= level <= LEVEL_COUNT,
    ensures
        next_level(next_level(next_level(next_level(level)))) == level,
        next_level(level) != level,
        next_level(next_level(level)) != level,
        next_level(next_level(next_level(level))) != level,
{
}

/// A game lasts three lives: after the first and the second death the level
/// is played again, after the third the game is over.
pub proof fn lemma_three_lives()
    ensures
        pause_outcome(GameData::spec_new_game().after_death()) == GameState::Playing,
        pause_outcome(GameData::spec_new_game().after_death().after_death()) == GameState::Playing,
        pause_outcome(GameData::spec_new_game().after_death().after_death().after_death())
            == GameState::GameOver,
{
}

// ── Text of the heads-up display ─────────────────────────────────────

/// The character of decimal digit `d`.
pub open spec fn digit_char(d: int) -> char {
    ((48 + d) as u8) as char
}

/// Decimal digits of `n`, most significant first, without leading zeros.
pub open spec fn decimal(n: nat) -> Seq<char>
    decreases n,
{
    if n < 10 {
        seq![digit_char(n as int)]
    } else {
        decimal(n / 10).push(digit_char((n % 10) as int))
    }
}

/// Decimal form of a signed number: a minus sign before negative ones.
pub open spec fn signed_decimal(n: int) -> Seq<char> {
    if n < 0 {
        seq!['-'] + decimal((-n) as nat)
    } else {
        decimal(n as nat)
    }
}

/// `s` with zeros in front up to `width` characters.
pub open spec fn zero_padded(s: Seq<char>, width: nat) -> Seq<char> {
    if s.len() < width {
        Seq::new((width - s.len()) as nat, |_i: int| '0') + s
    } else {
        s
    }
}

/// Appends a character to a string, with `String::push`.
///
/// Trusted: the string grows by exactly that character.
#[verifier::external_body]
fn push_char(s: &mut String, c: char)
    ensures
        final(s)@ == old(s)@.push(c),
{
    s.push(c);
}

fn digit(d: u64) -> (c: char)
    requires
        d < 10,
    ensures
        c == digit_char(d as int),
{
    ((48 + d) as u8) as char
}

/// Number of decimal digits of `n`.
fn decimal_len(n: u64) -> (res: usize)
    ensures
        res == decimal(n as nat).len(),
    decreases n,
{
    if n < 10 {
        1
    } else {
        let k = decimal_len(n / 10);
        proof {
            reveal_with_fuel(pow10, 21);
            assert(pow10(20) == 100000000000000000000);
            lemma_decimal_len_bound(n as nat, 20);
        }
        k + 1
    }
}

spec fn pow10(k: nat) -> nat
    decreases k,
{
    if k == 0 {
        1
    } else {
        10 * pow10((k - 1) as nat)
    }
}

proof fn lemma_decimal_len_bound(n: nat, k: nat)
    requires
        k >= 1,
        n < pow10(k),
    ensures
        decimal(n).len() <= k,
    decreases n,
{
    if n >= 10 {
        assert(k >= 2) by {
            if k == 1 {
                assert(pow10(0) == 1);
                assert(pow10(1) == 10);
            }
        }
        assert(pow10(k) == 10 * pow10((k - 1) as nat));
        assert(n / 10 < pow10((k - 1) as nat));
        lemma_decimal_len_bound(n / 10, (k - 1) as nat);
    }
}

/// Appends the decimal digits of `n`.
fn push_decimal(s: &mut String, n: u64)
    ensures
        final(s)@ == old(s)@ + decimal(n as nat),
    decreases n,
{
    if n >= 10 {
        push_decimal(s, n / 10);
    }
    push_char(s, digit(n % 10));
    assert(s@ =~= old(s)@ + decimal(n as nat));
}

/// Appends the decimal digits of `n`, with zeros in front up to `width`
/// characters.
fn push_zero_padded(s: &mut String, n: u64, width: usize)
    ensures
        final(s)@ == old(s)@ + zero_padded(decimal(n as nat), width as nat),
{
    let len = decimal_len(n);
    let ghost start = s@;
    if len < width {
        let zeros = width - len;
        let mut i: usize = 0;
        while i < zeros
            invariant
                i <= zeros,
                s@ == start + Seq::new(i as nat, |_i: int| '0'),
            decreases zeros - i,
        {
            push_char(s, '0');
            i = i + 1;
            assert(s@ =~= start + Seq::new(i as nat, |_i: int| '0'));
        }
    }
    push_decimal(s, n);
    assert(s@ =~= start + zero_padded(decimal(n as nat), width as nat));
}

/// Appends a signed number in decimal.
fn push_signed(s: &mut String, n: i64)
    ensures
        final(s)@ == old(s)@ + signed_decimal(n as int),
{
    let ghost start = s@;
    if n < 0 {
        push_char(s, '-');
        let m: u64 = if n == i64::MIN {
            9223372036854775808u64
        } else {
            (-n) as u64
        };
        push_decimal(s, m);
        assert(s@ =~= start + signed_decimal(n as int));
    } else {
        push_decimal(s, n as u64);
    }
}

/// Score line of the display: the score with at least five digits.
pub fn score_label(score: u32) -> (res: String)
    ensures
        res@ == "Score: "@ + zero_padded(decimal(score as nat), 5),
{
    let mut s = String::from_str("Score: ");
    push_zero_padded(&mut s, score as u64, 5);
    s
}

/// Lives line of the display; a negative count shows as zero.
pub fn lives_label(lives: i32) -> (res: String)
    ensures
        res@ == "x"@ + decimal(if lives > 0 {
            lives as nat
        } else {
            0
        }),
{
    let mut s = String::from_str("x");
    let n: u64 = if lives > 0 {
        lives as u64
    } else {
        0
    };
    push_decimal(&mut s, n);
    s
}

/// Lives line of the death screen; a negative count shows as zero.
pub fn death_lives_label(lives: i32) -> (res: String)
    ensures
        res@ == "Lives: "@ + decimal(if lives > 0 {
            lives as nat
        } else {
            0
        }),
{
    let mut s = String::from_str("Lives: ");
    let n: u64 = if lives > 0 {
        lives as u64
    } else {
        0
    };
    push_decimal(&mut s, n);
    s
}

/// World line of the display.
pub fn world_label(level: u32) -> (res: String)
    ensures
        res@ == "World 1-"@ + decimal(level as nat),
{
    let mut s = String::from_str("World 1-");
    push_decimal(&mut s, level as u64);
    s
}

/// Line of the level-complete screen that names the next world.
pub fn next_world_label(level: u32) -> (res: String)
    ensures
        res@ == "Next: World 1-"@ + decimal(level as nat),
{
    let mut s = String::from_str("Next: World 1-");
    push_decimal(&mut s, level as u64);
    s
}

/// Time line of the display, from the whole seconds left.
pub fn time_label(seconds: i32) -> (res: String)
    ensures
        res@ == "Time: "@ + signed_decimal(seconds as int),
{
    let mut s = String::from_str("Time: ");
    push_signed(&mut s, seconds as i64);
    s
}


// ── What the screens and the text mean ───────────────────────────────

/// After the pause the game is over exactly when no lives are left.
pub proof fn lemma_pause_outcome(d: GameData)
    ensures
        pause_outcome(d) == GameState::GameOver <==> d.lives <= 0,
        pause_outcome(d) == GameState::Playing <==> d.lives > 0,
{
}

/// Completing a level leads to the next one, and from the last to the
/// first; levels beyond the last also lead to the first.
pub proof fn lemma_next_level(level: int)
    requires
        level >= 0,
    ensures
        1 <= next_level(level) <= LEVEL_COUNT,
        0 <= level < LEVEL_COUNT ==> next_level(level) == level + 1,
        level >= LEVEL_COUNT ==> next_level(level) == 1,
{
}

/// The number that a string of decimal digits spells.
pub open spec fn number_of(s: Seq<char>) -> int
    decreases s.len(),
{
    if s.len() == 0 {
        0
    } else {
        number_of(s.drop_last()) * 10 + (s.last() as int - 48)
    }
}

/// `c` is one of the characters '0' to '9'.
pub open spec fn is_digit(c: char) -> bool {
    48 <= c as int <= 57
}

/// The decimal form of a number consists of digits, starts with a non-zero
/// digit unless the number is zero, and spells the number back.
pub proof fn lemma_decimal_reads_back(n: nat)
    ensures
        decimal(n).len() >= 1,
        forall|i: int| 0 <= i < decimal(n).len() ==> is_digit(#[trigger] decimal(n)[i]),
        n > 0 ==> decimal(n)[0] != '0',
        n == 0 ==> decimal(n) == seq!['0'],
        number_of(decimal(n)) == n,
    decreases n,
{
    assert(digit_char((n % 10) as int) as int == 48 + n % 10);
    if n >= 10 {
        lemma_decimal_reads_back(n / 10);
        let p = decimal(n / 10);
        let d = digit_char((n % 10) as int);
        assert(decimal(n) == p.push(d));
        assert(p.push(d).drop_last() =~= p);
        assert(p.push(d)[0] == p[0]);
        assert(number_of(p.push(d)) == number_of(p) * 10 + (d as int - 48));
        assert(n == (n / 10) * 10 + n % 10);
        assert forall|i: int| 0 <= i < decimal(n).len() implies is_digit(#[trigger] decimal(n)[i]) by {
            if i < p.len() {
                assert(p.push(d)[i] == p[i]);
            }
        }
    } else {
        assert(decimal(n) == seq![digit_char(n as int)]);
        let one = seq![digit_char(n as int)];
        assert(one.drop_last() =~= Seq::<char>::empty());
        assert(number_of(one.drop_last()) == 0);
        assert(number_of(one) == number_of(one.drop_last()) * 10 + (one.last() as int - 48));
    }
}

proof fn lemma_zeros_add_nothing(z: Seq<char>, s: Seq<char>)
    requires
        forall|i: int| 0 <= i < z.len() ==> z[i] == '0',
    ensures
        number_of(z + s) == number_of(s),
    decreases s.len() + z.len(),
{
    if s.len() == 0 {
        assert(z + s =~= z);
        if z.len() > 0 {
            lemma_zeros_add_nothing(z.drop_last(), s);
            assert(z.drop_last() + s =~= z.drop_last());
        }
    } else {
        lemma_zeros_add_nothing(z, s.drop_last());
        assert((z + s).drop_last() =~= z + s.drop_last());
    }
}

/// Padding with zeros keeps the number: the padded text is at least `width`
/// characters long, ends with the unpadded text, has only zeros in front of
/// it, and spells the same number.
pub proof fn lemma_zero_padding(s: Seq<char>, width: nat)
    ensures
        zero_padded(s, width).len() == if s.len() < width {
            width as int
        } else {
            s.len() as int
        },
        zero_padded(s, width).subrange(zero_padded(s, width).len() - s.len(), zero_padded(
            s,
            width,
        ).len() as int) == s,
        forall|i: int|
            0 <= i < zero_padded(s, width).len() - s.len() ==> #[trigger] zero_padded(s, width)[i]
                == '0',
        number_of(zero_padded(s, width)) == number_of(s),
{
    let p = zero_padded(s, width);
    if s.len() < width {
        let z = Seq::new((width - s.len()) as nat, |_i: int| '0');
        assert(p == z + s);
        assert(p.subrange(z.len() as int, p.len() as int) =~= s);
        lemma_zeros_add_nothing(z, s);
    } else {
        assert(p.subrange(0, p.len() as int) =~= s);
    }
}

/// The score line shows the score with at least five digits, all of them
/// digits, and they spell the score.
pub proof fn lemma_score_digits(score: u32)
    ensures
        zero_padded(decimal(score as nat), 5).len() >= 5,
        forall|i: int|
            0 <= i < zero_padded(decimal(score as nat), 5).len() ==> is_digit(
                #[trigger] zero_padded(decimal(score as nat), 5)[i],
            ),
        number_of(zero_padded(decimal(score as nat), 5)) == score,
{
    let d = decimal(score as nat);
    lemma_decimal_reads_back(score as nat);
    lemma_zero_padding(d, 5);
    let p = zero_padded(d, 5);
    assert forall|i: int| 0 <= i < p.len() implies is_digit(#[trigger] p[i]) by {
        if i >= p.len() - d.len() {
            assert(p[i] == p.subrange(p.len() - d.len(), p.len() as int)[i - (p.len() - d.len())]);
            assert(is_digit(d[i - (p.len() - d.len())]));
        } else {
            assert(p[i] == '0');
        }
    }
}

/// A signed number is shown as its magnitude in decimal, after a minus
/// sign exactly when it is negative.
pub proof fn lemma_signed_decimal(n: int)
    ensures
        n < 0 ==> signed_decimal(n)[0] == '-' && number_of(signed_decimal(n).drop_first()) == -n,
        n >= 0 ==> number_of(signed_decimal(n)) == n && is_digit(signed_decimal(n)[0]),
{
    if n < 0 {
        lemma_decimal_reads_back((-n) as nat);
        assert(signed_decimal(n).drop_first() =~= decimal((-n) as nat));
    } else {
        lemma_decimal_reads_back(n as nat);
    }
}

} // verus!
