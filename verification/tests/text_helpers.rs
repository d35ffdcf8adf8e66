use dwight::text::{chars_of, contains, has_suffix, join_with_space, matches_at, mentions};

fn chars(s: &str) -> Vec<char> {
    s.chars().collect()
}

#[test]
fn chars_of_gives_each_character_once() {
    assert_eq!(chars_of(""), Vec::<char>::new());
    assert_eq!(chars_of("abc"), vec!['a', 'b', 'c']);
    assert_eq!(chars_of("héé ☃"), vec!['h', 'é', 'é', ' ', '☃']);
}

#[test]
fn matches_at_compares_in_place() {
    let hay = chars("recording");
    assert!(matches_at(&hay, &chars("rec"), 0));
    assert!(matches_at(&hay, &chars("cord"), 2));
    assert!(!matches_at(&hay, &chars("cord"), 1));
    assert!(matches_at(&hay, &chars("ing"), 6));
    assert!(matches_at(&hay, &chars(""), 9));
    assert!(matches_at(&hay, &hay, 0));
    assert!(!matches_at(&hay, &chars("ing"), 7));
    assert!(!matches_at(&hay, &chars("g"), 9));
    assert!(!matches_at(&hay, &chars(""), 10));
    assert!(!matches_at(&hay, &chars("r"), usize::MAX));
    assert!(!matches_at(&chars("ab"), &chars("abc"), 0));
}

#[test]
fn contains_finds_a_run_anywhere() {
    let hay = chars("an audio file");
    assert!(contains(&hay, &chars("audio")));
    assert!(contains(&hay, &chars("an")));
    assert!(contains(&hay, &chars("file")));
    assert!(contains(&hay, &chars(" ")));
    assert!(contains(&hay, &chars("")));
    assert!(contains(&hay, &hay));
    assert!(!contains(&hay, &chars("audit")));
    assert!(!contains(&hay, &chars("an audio file!")));
    assert!(!contains(&hay, &chars("Audio")));
    assert!(contains(&chars(""), &chars("")));
    assert!(!contains(&chars(""), &chars("a")));
    assert!(contains(&chars("aab"), &chars("ab")));
}

#[test]
fn contains_agrees_with_the_standard_search() {
    let hays = ["", "a", "aaa", "abcabd", "héllo wörld", "audio"];
    let needles = ["", "a", "aa", "abd", "bc", "ö", "llo w", "audio", "audios"];
    for hay in hays.iter() {
        for needle in needles.iter() {
            assert_eq!(contains(&chars(hay), &chars(needle)), hay.contains(needle));
            assert_eq!(mentions(&chars(hay), needle), hay.contains(needle));
            assert_eq!(has_suffix(&chars(hay), &chars(needle)), hay.ends_with(needle));
        }
    }
}

#[test]
fn has_suffix_looks_at_the_end_only() {
    assert!(has_suffix(&chars("take.wav"), &chars(".wav")));
    assert!(!has_suffix(&chars("take.wav.bak"), &chars(".wav")));
    assert!(!has_suffix(&chars("wav"), &chars(".wav")));
    assert!(has_suffix(&chars(".wav"), &chars(".wav")));
    assert!(has_suffix(&chars("x"), &chars("")));
}

#[test]
fn join_puts_one_space_between_parts() {
    assert_eq!(join_with_space(&vec![]), "");
    assert_eq!(join_with_space(&vec![String::from("one")]), "one");
    assert_eq!(join_with_space(&vec![String::from("one"), String::from("two")]), "one two");
    assert_eq!(
        join_with_space(&vec![String::from(""), String::from("b"), String::from("")]),
        " b "
    );
    let parts = vec![String::from("a b"), String::from("c"), String::from("d")];
    assert_eq!(join_with_space(&parts), parts.join(" "));
}
