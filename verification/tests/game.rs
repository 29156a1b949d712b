use hello_pumpkin::{Choice, Outcome};

const ALL: [Choice; 3] = [Choice::Rock, Choice::Paper, Choice::Scissors];

#[test]
fn equal_symbols_draw() {
    for x in ALL {
        assert_eq!(x.beats(&x), Outcome::Draw);
    }
}

#[test]
fn draw_only_on_equal_symbols() {
    for x in ALL {
        for y in ALL {
            assert_eq!(x.beats(&y) == Outcome::Draw, x == y);
        }
    }
}

#[test]
fn distinct_symbols_have_exactly_one_winner() {
    for x in ALL {
        for y in ALL {
            if x == y {
                continue;
            }
            let forth = x.beats(&y);
            let back = y.beats(&x);
            assert_ne!(forth, Outcome::Draw);
            assert_ne!(back, Outcome::Draw);
            assert_ne!(forth, back);
            assert_eq!(forth == Outcome::Win, back == Outcome::Lose);
        }
    }
}

#[test]
fn rock_beats_scissors_beats_paper_beats_rock() {
    assert_eq!(Choice::Rock.beats(&Choice::Scissors), Outcome::Win);
    assert_eq!(Choice::Scissors.beats(&Choice::Paper), Outcome::Win);
    assert_eq!(Choice::Paper.beats(&Choice::Rock), Outcome::Win);
}

#[test]
fn the_ring_runs_one_way_only() {
    assert_eq!(Choice::Scissors.beats(&Choice::Rock), Outcome::Lose);
    assert_eq!(Choice::Paper.beats(&Choice::Scissors), Outcome::Lose);
    assert_eq!(Choice::Rock.beats(&Choice::Paper), Outcome::Lose);
}

#[test]
fn full_outcome_table() {
    let table = [
        (Choice::Rock, Choice::Rock, Outcome::Draw),
        (Choice::Rock, Choice::Paper, Outcome::Lose),
        (Choice::Rock, Choice::Scissors, Outcome::Win),
        (Choice::Paper, Choice::Rock, Outcome::Win),
        (Choice::Paper, Choice::Paper, Outcome::Draw),
        (Choice::Paper, Choice::Scissors, Outcome::Lose),
        (Choice::Scissors, Choice::Rock, Outcome::Lose),
        (Choice::Scissors, Choice::Paper, Outcome::Win),
        (Choice::Scissors, Choice::Scissors, Outcome::Draw),
    ];
    for (x, y, expected) in table {
        assert_eq!(x.beats(&y), expected, "{:?} against {:?}", x, y);
    }
}

#[test]
fn each_symbol_wins_once_loses_once_draws_once() {
    for x in ALL {
        let outcomes: Vec<Outcome> = ALL.iter().map(|y| x.beats(y)).collect();
        assert_eq!(outcomes.iter().filter(|o| **o == Outcome::Win).count(), 1);
        assert_eq!(outcomes.iter().filter(|o| **o == Outcome::Lose).count(), 1);
        assert_eq!(outcomes.iter().filter(|o| **o == Outcome::Draw).count(), 1);
    }
}
