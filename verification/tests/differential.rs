use launcher_installer::library::find_steam_libraries;
use launcher_installer::paths::join;
use launcher_installer::sandbox::{ends_in_id, extract_appid, list_nonsteam_games};
use launcher_installer::text::{
    answers_yes, find_text, fold_backslashes, parse_selection, split_lines, trim,
};

/// A small generator of repeatable pseudo-random numbers.
struct Dice(u64);

impl Dice {
    fn roll(&mut self, sides: usize) -> usize {
        self.0 = self.0.wrapping_mul(6364136223846793005).wrapping_add(1442695040888963407);
        ((self.0 >> 33) as usize) % sides
    }

    fn text(&mut self, alphabet: &[char], longest: usize) -> String {
        let n = self.roll(longest + 1);
        (0..n).map(|_| alphabet[self.roll(alphabet.len())]).collect()
    }
}

#[test]
fn trim_and_lines_agree_with_std_on_random_text() {
    let alphabet = [' ', '\t', '\n', '\r', 'a', 'b', '\u{a0}', '\u{2003}', '\u{85}', 'é', '\u{200b}'];
    let mut dice = Dice(1);
    for _ in 0..3000 {
        let s = dice.text(&alphabet, 12);
        assert_eq!(trim(&s), s.trim());
        let lines: Vec<String> = s.lines().map(|l| l.to_string()).collect();
        assert_eq!(split_lines(&s), lines);
    }
}

#[test]
fn search_and_folding_agree_with_std_on_random_text() {
    let alphabet = ['\\', '/', 'a', 'b', 'é'];
    let mut dice = Dice(2);
    for _ in 0..3000 {
        let hay = dice.text(&alphabet, 10);
        let needle = dice.text(&alphabet, 3);
        assert_eq!(find_text(&hay, &needle), hay.contains(needle.as_str()));
        assert_eq!(fold_backslashes(&hay), hay.replace("\\\\", "/"));
    }
}

#[test]
fn join_agrees_with_std_on_random_paths() {
    let alphabet = ['/', 'a', 'b', ' ', '.', 'é'];
    let mut dice = Dice(3);
    for _ in 0..3000 {
        let base = dice.text(&alphabet, 8);
        let rel = dice.text(&alphabet, 8);
        let expected = std::path::Path::new(&base).join(&rel);
        assert_eq!(join(&base, &rel), expected.to_string_lossy());
    }
}

#[test]
fn selection_agrees_with_std_on_random_answers() {
    let alphabet = ['0', '1', '2', '9', '+', '-', ' ', '\n', 'x'];
    let mut dice = Dice(4);
    for _ in 0..3000 {
        let answer = dice.text(&alphabet, 6);
        let count = dice.roll(30);
        let expected = match answer.trim().parse::<usize>() {
            Ok(i) if i >= 1 && i <= count => Some(i - 1),
            _ => None,
        };
        assert_eq!(parse_selection(&answer, count), expected);
    }
}

#[test]
fn yes_agrees_with_lowercasing_on_random_answers() {
    let alphabet = ['y', 'Y', 'e', 'E', 's', 'S', ' ', '\n', 'n', 'ſ'];
    let mut dice = Dice(5);
    for _ in 0..3000 {
        let answer = dice.text(&alphabet, 5);
        let lowered = answer.trim().to_lowercase();
        assert_eq!(answers_yes(&answer), lowered == "yes" || lowered == "y");
    }
}

#[test]
fn extract_appid_agrees_with_the_search_on_random_lines() {
    let pattern = regex::Regex::new(r"\(([0-9]+)\)$").unwrap();
    let pieces = ["(", ")", "0", "42", " ", "a", "(7)", "\n", "٣", "(12"];
    let mut dice = Dice(6);
    let mut some = 0;
    for _ in 0..5000 {
        let n = dice.roll(6);
        let line: String = (0..n).map(|_| pieces[dice.roll(pieces.len())]).collect();
        let expected =
            pattern.captures(&line).and_then(|c| c.get(1).map(|m| m.as_str().to_string()));
        let id = extract_appid(&line);
        assert_eq!(id, expected);
        if let Some(id) = id {
            assert!(ends_in_id(&line, &id));
            some += 1;
        }
    }
    assert!(some > 50);
}

#[test]
fn listing_agrees_with_std_on_random_output() {
    let pieces = ["Non-Steam shortcut:", "Non-Steam", " x (1)", "\n", "\r\n", "shortcut:", " "];
    let mut dice = Dice(7);
    for _ in 0..2000 {
        let n = dice.roll(8);
        let text: String = (0..n).map(|_| pieces[dice.roll(pieces.len())]).collect();
        let expected: Vec<String> = text
            .lines()
            .filter(|l| l.contains("Non-Steam shortcut:"))
            .map(|l| l.to_string())
            .collect();
        assert_eq!(list_nonsteam_games(Some(0), &text.as_bytes().to_vec()), Ok(expected));
    }
}

#[test]
fn libraries_agree_with_the_search_of_each_line_on_random_descriptions() {
    let pattern = regex::Regex::new(r#""path"\s*"([^"]+)""#).unwrap();
    let pieces = ["\"path\"", "\"", " ", "\t", "\n", "\r\n", "/a", "\\\\", "b", "\"label\""];
    let mut dice = Dice(8);
    let mut some = 0;
    for _ in 0..4000 {
        let n = 1 + dice.roll(12);
        let text: String = (0..n).map(|_| pieces[dice.roll(pieces.len())]).collect();
        let mut expected = vec!["/root".to_string()];
        for line in text.lines() {
            if let Some(path) = pattern.captures(line).and_then(|cap| cap.get(1)) {
                assert!(!path.as_str().contains('\n'));
                expected.push(path.as_str().replace("\\\\", "/"));
                some += 1;
            }
        }
        assert_eq!(find_steam_libraries("/root", Some(&text)), Ok(expected));
    }
    assert!(some > 50);
}
