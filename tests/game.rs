use milk_and_cookies::{parse_team, Game, GameError, Item};

const EMPTY: char = '\u{2B1B}';
const WALL: char = '\u{2B1C}';
const COOKIE: char = '\u{1F36A}';
const MILK: char = '\u{1F95B}';

fn interior(g: &Game) -> Vec<Item> {
    let mut cells = Vec::new();
    for y in 0..4 {
        for x in 1..5 {
            cells.push(g.get(x, y));
        }
    }
    cells
}

#[test]
fn column_fills_from_the_bottom() {
    for c in 1..=4u32 {
        let mut g = Game::new();
        for k in 0..4usize {
            assert_eq!(g.place("cookie", c), Ok(()));
            assert_eq!(g.get(c as usize, 3 - k), Item::Cookie);
            if k < 3 {
                assert_eq!(g.get(c as usize, 2 - k), Item::Empty);
            }
        }
        assert_eq!(g.place("cookie", c), Err(GameError::ColumnFull));
        assert_eq!(g.place("milk", c), Err(GameError::ColumnFull));
    }
}

#[test]
fn out_of_range_column_is_refused() {
    let mut g = Game::new();
    g.place("milk", 2).unwrap();
    let before = interior(&g);
    for c in [0u32, 5, 6, 100, u32::MAX] {
        assert_eq!(g.place("milk", c), Err(GameError::InvalidColumn));
        assert_eq!(interior(&g), before);
    }
}

#[test]
fn unknown_team_is_refused() {
    let mut g = Game::new();
    assert_eq!(g.place("tea", 1), Err(GameError::InvalidTeam));
    assert_eq!(g.place("Cookie", 1), Err(GameError::InvalidTeam));
    assert_eq!(g.get(1, 3), Item::Empty);
    assert_eq!(parse_team("milk"), Some(Item::Milk));
    assert_eq!(parse_team("cookie"), Some(Item::Cookie));
    assert_eq!(parse_team(""), None);
}

#[test]
fn reset_board_is_empty_and_walled() {
    let mut g = Game::new();
    g.place("milk", 1).unwrap();
    g.make_rand();
    g.reset();
    assert_eq!(g.is_winner(), None);
    assert!(!g.is_full());
    let text = g.render();
    let lines: Vec<&str> = text.split('\n').collect();
    assert_eq!(lines.len(), 6);
    assert_eq!(lines[5], "");
    for y in 0..4 {
        let row: Vec<char> = lines[y].chars().collect();
        assert_eq!(row, vec![WALL, EMPTY, EMPTY, EMPTY, EMPTY, WALL]);
    }
    let bottom: Vec<char> = lines[4].chars().collect();
    assert_eq!(bottom, vec![WALL; 6]);
}

#[test]
fn bottom_row_of_one_team_wins() {
    let mut g = Game::new();
    for c in 1..=4 {
        assert_eq!(g.is_winner(), None);
        g.place("milk", c).unwrap();
    }
    assert_eq!(g.is_winner(), Some(Item::Milk));
    assert!(!g.is_full());
}

#[test]
fn column_and_diagonal_wins() {
    let mut g = Game::new();
    for _ in 0..4 {
        g.place("cookie", 3).unwrap();
    }
    assert_eq!(g.is_winner(), Some(Item::Cookie));

    let mut g = Game::new();
    // rising diagonal: (1,3) (2,2) (3,1) (4,0)
    g.place("milk", 1).unwrap();
    g.place("cookie", 2).unwrap();
    g.place("milk", 2).unwrap();
    g.place("cookie", 3).unwrap();
    g.place("cookie", 3).unwrap();
    g.place("milk", 3).unwrap();
    g.place("cookie", 4).unwrap();
    g.place("cookie", 4).unwrap();
    g.place("cookie", 4).unwrap();
    assert_eq!(g.is_winner(), None);
    g.place("milk", 4).unwrap();
    assert_eq!(g.is_winner(), Some(Item::Milk));
}

#[test]
fn mixed_full_board_has_no_winner() {
    let mut g = Game::new();
    for c in [1u32, 2] {
        for team in ["milk", "cookie", "milk", "cookie"] {
            g.place(team, c).unwrap();
        }
    }
    for c in [3u32, 4] {
        for team in ["cookie", "milk", "cookie", "milk"] {
            g.place(team, c).unwrap();
        }
    }
    assert!(g.is_full());
    assert_eq!(g.is_winner(), None);
}

#[test]
fn fill_from_draws_row_by_row() {
    let mut g = Game::new();
    let draws: Vec<bool> = (0..16).map(|i| i % 3 == 0).collect();
    g.fill_from(&draws);
    for y in 0..4 {
        for x in 1..5 {
            let want = if draws[y * 4 + x - 1] { Item::Cookie } else { Item::Milk };
            assert_eq!(g.get(x, y), want);
        }
    }
    assert!(g.is_full());
    assert_eq!(g.get(0, 0), Item::Wall);
    assert_eq!(g.get(5, 4), Item::Wall);
    assert_eq!(g.place("milk", 1), Err(GameError::ColumnFull));
}

#[test]
fn random_fill_advances_and_repeats_after_reset() {
    let mut g = Game::new();
    g.make_rand();
    let first = interior(&g);
    assert!(g.is_full());
    assert!(first.iter().all(|i| *i == Item::Cookie || *i == Item::Milk));
    g.make_rand();
    let second = interior(&g);
    assert_ne!(first, second);

    g.reset();
    g.make_rand();
    assert_eq!(interior(&g), first);
    g.make_rand();
    assert_eq!(interior(&g), second);

    let mut other = Game::new();
    other.make_rand();
    assert_eq!(interior(&other), first);
}

#[test]
fn render_shows_pieces() {
    let mut g = Game::new();
    g.place("cookie", 1).unwrap();
    g.place("milk", 4).unwrap();
    let text = g.render();
    assert_eq!(text.chars().count(), 35);
    let lines: Vec<&str> = text.lines().collect();
    let row: Vec<char> = lines[3].chars().collect();
    assert_eq!(row, vec![WALL, COOKIE, EMPTY, EMPTY, MILK, WALL]);
}
