use launcher_installer::library::{
    accept_path, collect_roots, description_file, find_steam_libraries, holds_path, path_of_line,
    steam_root_path, LocateError,
};

const PRIMARY: &str = "/home/alice/.steam/steam";

fn strings(list: &[&str]) -> Vec<String> {
    list.iter().map(|s| s.to_string()).collect()
}

#[test]
fn steam_root_lies_below_home() {
    assert_eq!(steam_root_path("/home/alice"), PRIMARY);
    assert_eq!(
        description_file(PRIMARY),
        "/home/alice/.steam/steam/steamapps/libraryfolders.vdf"
    );
}

#[test]
fn find_steam_libraries_reads_the_paths_in_file_order() {
    let text = "\"libraryfolders\"\n{\n\t\"contentstatsid\"\t\t\"-12345\"\n\t\"0\"\n\t{\n\
        \t\t\"path\"\t\t\"/home/alice/.local/share/Steam\"\n\t\t\"label\"\t\t\"\"\n\
        \t\t\"totalsize\"\t\t\"0\"\n\t\t\"apps\"\n\t\t{\n\t\t\t\"228980\"\t\t\"1\"\n\t\t}\n\t}\n\
        \t\"1\"\n\t{\n\t\t\"path\"\t\t\"/mnt/games/SteamLibrary\"\n\t\t\"label\"\t\t\"big\"\n\t}\n}\n";
    assert_eq!(
        find_steam_libraries(PRIMARY, Some(text)),
        Ok(strings(&[PRIMARY, "/home/alice/.local/share/Steam", "/mnt/games/SteamLibrary"]))
    );
}

#[test]
fn find_steam_libraries_folds_doubled_backslashes() {
    let text = "\"path\"\t\"D:\\\\Games\\\\SteamLibrary\"\n";
    assert_eq!(
        find_steam_libraries(PRIMARY, Some(text)),
        Ok(strings(&[PRIMARY, "D:/Games/SteamLibrary"]))
    );
}

#[test]
fn find_steam_libraries_keeps_what_parses_of_a_malformed_file() {
    let text = "\"path\" \"/first\"\n\"path\" \"/second\n\"label\" \"x\"\n";
    assert_eq!(find_steam_libraries(PRIMARY, Some(text)), Ok(strings(&[PRIMARY, "/first"])));
    let later = "\"path\" \"/second\n\"label\" \"x\"\n\"path\" \"/third\"\n";
    assert_eq!(find_steam_libraries(PRIMARY, Some(later)), Ok(strings(&[PRIMARY, "/third"])));
    let unclosed = "\"path\" \"/never closed";
    assert_eq!(find_steam_libraries(PRIMARY, Some(unclosed)), Ok(strings(&[PRIMARY])));
}

#[test]
fn find_steam_libraries_takes_no_value_from_another_line() {
    let split = "\"path\"\n\"/next/line\"\n";
    assert_eq!(find_steam_libraries(PRIMARY, Some(split)), Ok(strings(&[PRIMARY])));
    let word = "\"label\" \"path\"\n\"totalsize\" \"0\"\n";
    assert_eq!(find_steam_libraries(PRIMARY, Some(word)), Ok(strings(&[PRIMARY])));
    let broken = "\"path\" \"/a\n/b\"\n";
    assert_eq!(find_steam_libraries(PRIMARY, Some(broken)), Ok(strings(&[PRIMARY])));
}

#[test]
fn find_steam_libraries_reads_lines_that_end_in_a_return() {
    let text = "\"path\"\t\"/one\"\r\n\t\"path\" \"/two\"\r\n";
    assert_eq!(find_steam_libraries(PRIMARY, Some(text)), Ok(strings(&[PRIMARY, "/one", "/two"])));
}

#[test]
fn find_steam_libraries_takes_one_path_of_a_line() {
    let text = "\"path\" \"/a\" \"path\" \"/b\"\n\"path\" \"/c\"";
    assert_eq!(find_steam_libraries(PRIMARY, Some(text)), Ok(strings(&[PRIMARY, "/a", "/c"])));
}

#[test]
fn find_steam_libraries_without_paths_knows_the_primary_root_only() {
    assert_eq!(
        find_steam_libraries(PRIMARY, Some("\"libraryfolders\"\n{\n}\n")),
        Ok(strings(&[PRIMARY]))
    );
    assert_eq!(find_steam_libraries(PRIMARY, Some("\"path\" \"\"")), Ok(strings(&[PRIMARY])));
}

#[test]
fn find_steam_libraries_keeps_duplicates() {
    let text = "\"path\" \"/x\"\n\"path\" \"/x\"\n";
    assert_eq!(find_steam_libraries(PRIMARY, Some(text)), Ok(strings(&[PRIMARY, "/x", "/x"])));
}

#[test]
fn find_steam_libraries_matches_the_key_without_whitespace_too() {
    let text = "\"path\"\"/tight\"\n\"path\"   \t \"/loose\"\n\"path\"   \n \"/apart\"";
    assert_eq!(
        find_steam_libraries(PRIMARY, Some(text)),
        Ok(strings(&[PRIMARY, "/tight", "/loose"]))
    );
}

#[test]
fn find_steam_libraries_fails_on_an_empty_file() {
    assert_eq!(find_steam_libraries(PRIMARY, Some("")), Err(LocateError::Empty));
}

#[test]
fn find_steam_libraries_fails_without_a_file() {
    assert_eq!(find_steam_libraries(PRIMARY, None), Err(LocateError::Unreadable));
}

#[test]
fn collect_roots_puts_the_primary_root_first() {
    let found = vec![Some("/a".to_string()), None, Some("b\\\\c".to_string())];
    assert_eq!(collect_roots("/p", &found), strings(&["/p", "/a", "b/c"]));
    assert_eq!(collect_roots("/p", &Vec::new()), strings(&["/p"]));
}

#[test]
fn holds_path_wants_key_and_quoted_value_in_the_line() {
    assert!(holds_path("\t\t\"path\"\t\t\"/mnt/games\"", "/mnt/games"));
    assert!(holds_path("\"path\"\"x\"", "x"));
    assert!(holds_path("\"path\" \"a\" \"path\" \"b\"", "b"));
    assert!(holds_path("x\"path\"\u{a0}\"v\"y", "v"));
    assert!(!holds_path("\"path\" \"/mnt/games", "/mnt/games"));
    assert!(!holds_path("\"path\" \"/mnt/games\"", "/mnt"));
    assert!(!holds_path("\"path\" \"/mnt/games\"", "mnt/games"));
    assert!(!holds_path("\"path\" x \"/mnt\"", "/mnt"));
    assert!(!holds_path("\"Path\" \"/mnt\"", "/mnt"));
    assert!(!holds_path("path \"/mnt\"", "/mnt"));
    assert!(!holds_path("\"path\" \"\"", ""));
    assert!(!holds_path("\"path\" \"a\"b\"", "a\"b"));
    assert!(!holds_path("", "x"));
    assert!(!holds_path("\"path\"", "x"));
}

#[test]
fn accept_path_checks_the_found_text_against_the_line() {
    let line = "\"path\" \"/mnt/games\"";
    assert_eq!(accept_path(line, Some("/mnt/games".to_string())), Some("/mnt/games".to_string()));
    assert_eq!(accept_path(line, Some("/mnt/games\n".to_string())), None);
    assert_eq!(accept_path(line, Some("games".to_string())), None);
    assert_eq!(accept_path(line, None), None);
}

#[test]
fn path_of_line_reads_one_line() {
    assert_eq!(path_of_line("\t\"path\"\t\t\"/mnt/games\""), Some("/mnt/games".to_string()));
    assert_eq!(path_of_line("\"path\" \"D:\\\\Games\""), Some("D:\\\\Games".to_string()));
    assert_eq!(path_of_line("\"path\" \"/mnt/games"), None);
    assert_eq!(path_of_line("\"label\" \"big\""), None);
    assert_eq!(path_of_line(""), None);
}

#[test]
fn path_of_line_takes_every_whitespace_between_key_and_value() {
    let mut c = 0u32;
    let mut spaces = 0;
    while c <= 0x10ffff {
        if let Some(ch) = char::from_u32(c) {
            if ch.is_whitespace() || c % 4093 == 0 {
                let line = format!("\"path\"{}\"v\"", ch);
                let expected = if ch.is_whitespace() { Some("v".to_string()) } else { None };
                assert_eq!(path_of_line(&line), expected);
                spaces += ch.is_whitespace() as usize;
            }
        }
        c += 1;
    }
    assert_eq!(spaces, 25);
}
