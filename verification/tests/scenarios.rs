use regexp::regexp::NoExpand;
use regexp::{quote, ErrorKind, Regexp};

fn compile(source: &str) -> Regexp {
    match Regexp::new(source) {
        Ok(re) => re,
        Err(err) => panic!("{} at {}: {}", source, err.pos, err.msg),
    }
}

fn all_matches(re: &Regexp, text: &str) -> Vec<(usize, usize)> {
    let mut found = Vec::new();
    let mut it = re.find_iter(text);
    while let Some(span) = it.next() {
        found.push(span);
    }
    found
}

fn all_pieces(re: &Regexp, text: &str) -> Vec<String> {
    let mut found = Vec::new();
    let mut it = re.split(text);
    while let Some(piece) = it.next() {
        found.push(piece.to_string());
    }
    found
}

fn run(source: &str, text: &str) {
    let re = compile(source);
    let spans = all_matches(&re, text);
    let mut caps = re.captures_iter(text);
    let mut n = 0;
    while let Some(cap) = caps.next() {
        let mut texts = Vec::new();
        let mut groups = cap.iter();
        while let Some(t) = groups.next() {
            texts.push(t);
        }
        assert_eq!(texts.len(), cap.len());
        assert_eq!(cap.pos(0), Some(spans[n]));
        n += 1;
    }
    assert_eq!(n, spans.len());
}

#[test]
fn other() {
    let r = compile(r"(\S+)\s+(?P<last>\S+)");
    let text = "andrew gallant";
    assert_eq!(r.replace_all(text, "$last,$wat $1"), "gallant, andrew");
}

#[test]
fn simple() {
    let text = "abaabaccadaaae";
    let re = compile("a*");
    let mut pieces = Vec::new();
    let mut it = re.splitn(text, 2);
    while let Some(s) = it.next() {
        pieces.push(s);
    }
    assert_eq!(pieces, vec!["", "baabaccadaaae"]);
}

#[test]
fn captures() {
    run("(a)b", "ab");
    run("(?sm)(.*)^\nab", "\n\n\nab");
    run(r"(?P<wat>\d+)a(?P<a>\d+)", "123a456");
}

#[test]
fn one_or_more_is_greedy() {
    let re = compile(r"a+");
    assert_eq!(all_matches(&re, "aaa"), vec![(0, 3)]);
}

#[test]
fn named_and_numbered_groups() {
    let re = compile(r"(\S+)\s+(?P<last>\S+)");
    let caps = re.captures("andrew gallant").unwrap();
    assert_eq!(caps.len(), 3);
    assert_eq!(caps.at(0), "andrew gallant");
    assert_eq!(caps.at(1), "andrew");
    assert_eq!(caps.at(2), "gallant");
    assert_eq!(caps.name("last"), "gallant");
    assert_eq!(caps.name("first"), "");
    assert_eq!(caps.at(3), "");
    assert_eq!(caps.pos(1), Some((0, 6)));
    assert_eq!(caps.pos(2), Some((7, 14)));
    assert_eq!(caps.pos(3), None);
}

#[test]
fn left_alternative_wins() {
    let re = compile(r"a|ab");
    assert_eq!(re.find("ab"), Some((0, 1)));
}

#[test]
fn case_insensitive_flag() {
    let re = compile(r"(?i)Abc");
    assert!(re.is_match("aBc"));
    assert!(!compile(r"Abc").is_match("aBc"));
}

#[test]
fn word_boundaries() {
    let re = compile(r"\b\w+\b");
    assert_eq!(all_matches(&re, "one two"), vec![(0, 3), (4, 7)]);
}

#[test]
fn empty_expression_matches_everywhere() {
    let re = compile("");
    assert_eq!(all_matches(&re, "abc"), vec![(0, 0), (1, 1), (2, 2), (3, 3)]);
    assert_eq!(all_matches(&re, ""), vec![(0, 0)]);
}

#[test]
fn anchors_on_empty_input() {
    let re = compile("^$");
    assert_eq!(re.find(""), Some((0, 0)));
    assert_eq!(re.find("a"), None);
}

#[test]
fn assertions_at_end_of_input() {
    assert_eq!(compile("a$").find("ba"), Some((1, 2)));
    assert_eq!(compile("$").find("ab"), Some((2, 2)));
    assert_eq!(compile(r"a\b").find("a"), Some((0, 1)));
    assert_eq!(compile(r"a\B").find("a"), None);
    assert_eq!(compile(r"\z").find("ab"), Some((2, 2)));
}

#[test]
fn is_match_find_and_captures_agree() {
    for (source, text) in [("a+", "baab"), ("a+", "bbb"), ("(x)|y", "zzy"), ("^$", "q")] {
        let re = compile(source);
        let found = re.find(text);
        assert_eq!(re.is_match(text), found.is_some());
        assert_eq!(re.captures(text).is_some(), found.is_some());
    }
}

#[test]
fn spans_are_ordered_and_on_boundaries() {
    let text = "héllo wörld";
    let re = compile(r"(\S)(\S*)");
    let mut caps = re.captures_iter(text);
    let mut last_end = 0;
    while let Some(cap) = caps.next() {
        let mut spans = cap.iter_pos();
        while let Some(span) = spans.next() {
            if let Some((s, e)) = span {
                assert!(s <= e && e <= text.len());
                assert!(text.is_char_boundary(s) && text.is_char_boundary(e));
                let (s0, e0) = cap.pos(0).unwrap();
                assert!(s0 <= s && e <= e0);
            }
        }
        let (s0, e0) = cap.pos(0).unwrap();
        assert!(last_end <= s0);
        last_end = e0;
    }
    assert_eq!(all_matches(&re, text), vec![(0, 6), (7, 13)]);
}

#[test]
fn matches_do_not_overlap() {
    let re = compile("a*");
    let spans = all_matches(&re, "baaab");
    assert_eq!(spans, vec![(0, 0), (1, 4), (5, 5)]);
    for pair in spans.windows(2) {
        assert!(pair[0].1 < pair[1].1);
        assert!(pair[0].1 <= pair[1].0);
    }
}

#[test]
fn split_and_matches_rebuild_the_text() {
    let text = "one, two,three ,  four";
    let re = compile(r"\s*,\s*");
    let pieces = all_pieces(&re, text);
    assert_eq!(pieces, vec!["one", "two", "three", "four"]);
    let spans = all_matches(&re, text);
    let mut rebuilt = String::new();
    for (i, piece) in pieces.iter().enumerate() {
        rebuilt.push_str(piece);
        if i < spans.len() {
            rebuilt.push_str(&text[spans[i].0..spans[i].1]);
        }
    }
    assert_eq!(rebuilt, text);
}

#[test]
fn split_drops_an_empty_last_piece() {
    let re = compile(",");
    assert_eq!(all_pieces(&re, "a,b,"), vec!["a", "b"]);
    assert_eq!(all_pieces(&re, ",a"), vec!["", "a"]);
    assert_eq!(all_pieces(&re, ""), Vec::<String>::new());
}

#[test]
fn splitn_stops_at_the_limit() {
    let re = compile(",");
    let mut it = re.splitn("a,b,c,d", 3);
    assert_eq!(it.next(), Some("a"));
    assert_eq!(it.next(), Some("b"));
    assert_eq!(it.next(), Some("c,d"));
    assert_eq!(it.next(), None);
    let mut none = re.splitn("a,b", 0);
    assert_eq!(none.next(), None);
}

#[test]
fn replacing_a_match_by_its_own_text_changes_nothing() {
    let re = compile("ab");
    let text = "xxabyyabab";
    assert_eq!(re.replace_all(text, NoExpand("ab")), text);
}

#[test]
fn replace_first_some_and_all() {
    let re = compile(r"\d+");
    let text = "a1b22c333";
    assert_eq!(re.replace(text, NoExpand("#")), "a#b22c333");
    assert_eq!(re.replacen(text, 2, NoExpand("#")), "a#b#c333");
    assert_eq!(re.replace_all(text, NoExpand("#")), "a#b#c#");
    assert_eq!(re.replace("none", NoExpand("#")), "none");
    assert_eq!(re.replace_all(text, NoExpand("$0")), "a$0b$0c$0");
}

#[test]
fn templates_expand_references() {
    let re = compile(r"(?P<y>\d{4})-(?P<m>\d{2})");
    let text = "on 2014-04 and 1999-12";
    assert_eq!(re.replace_all(text, "$m/$y"), "on 04/2014 and 12/1999");
    assert_eq!(re.replace_all(text, "$2.$1"), "on 04.2014 and 12.1999");
    assert_eq!(re.replace_all(text, "$$1"), "on $1 and $1");
    assert_eq!(re.replace_all(text, "[$0]"), "on [2014-04] and [1999-12]");
    assert_eq!(re.replace_all(text, "$9$nope!"), "on ! and !");
    assert_eq!(re.replace_all(text, "$ $"), "on $ $ and $ $");
    assert_eq!(re.replace_all(text, "$99999999999999999999x"), "on  and ");
}

#[test]
fn byte_offsets_of_wide_characters() {
    let re = compile("b+");
    assert_eq!(re.find("éb"), Some((2, 3)));
    assert_eq!(re.find("日本bb語"), Some((6, 8)));
    assert_eq!(all_matches(&compile("."), "a日𝄞"), vec![(0, 1), (1, 4), (4, 8)]);
}

#[test]
fn quote_escapes_meta_characters() {
    assert_eq!(quote("a.b*c"), "a\\.b\\*c");
    assert_eq!(quote(r"\.+*?()|[]{}^$"), r"\\\.\+\*\?\(\)\|\[\]\{\}\^\$");
    assert_eq!(quote("plain"), "plain");
    let re = compile(&quote("1+1=2?"));
    assert_eq!(re.find("so 1+1=2? yes"), Some((3, 9)));
}

#[test]
fn syntax_errors_carry_a_position() {
    let cases: Vec<(&str, usize)> = vec![
        ("*a", 0),
        ("a(b", 1),
        ("ab)", 2),
        ("a[bc", 1),
        ("[z-a]", 1),
        ("[[:nope:]]", 1),
        (r"[\PN]", 1),
        (r"a\q", 1),
        ("ab\\", 2),
        (r"\xZZ", 0),
        ("(?P<>a)", 0),
        ("(?P<n", 0),
        ("(?x:a)", 0),
        ("a{2,1}", 1),
        ("a{1001}", 1),
        (r"\pQ", 0),
    ];
    for (source, pos) in cases {
        match Regexp::new(source) {
            Ok(_) => panic!("{} compiled", source),
            Err(err) => {
                assert!(matches!(err.kind, ErrorKind::BadSyntax));
                assert_eq!(err.pos, pos, "{}", source);
                assert!(!err.msg.is_empty());
            }
        }
    }
}

#[test]
fn case_insensitive_classes_try_both_cases() {
    assert_eq!(compile("(?i)[a-z]+").find("ABC"), Some((0, 3)));
    assert_eq!(compile("(?i)[A-Z]+").find("abc"), Some((0, 3)));
    assert_eq!(compile("(?i)[^a-z]+").find("ANDREW"), None);
    assert_eq!(compile("(?i)straße").find("STRASSE"), None);
    assert_eq!(compile("(?i)é").find("É"), Some((0, 2)));
}

#[test]
fn hexadecimal_escapes_name_characters() {
    assert_eq!(compile(r"\x41+").find("zAAz"), Some((1, 3)));
    assert_eq!(compile(r"\x{65e5}").find("a日"), Some((1, 4)));
    assert_eq!(compile(r"[\x30-\x39]+").find("ab123"), Some((2, 5)));
    assert!(Regexp::new(r"\x{d800}").is_err());
    assert!(Regexp::new(r"\x{110000}").is_err());
}

#[test]
fn unicode_word_characters() {
    assert_eq!(compile(r"a\b").find("aé"), None);
    assert_eq!(compile(r"a\b").find("a-"), Some((0, 1)));
    assert_eq!(compile(r"a\B").find("a日"), Some((0, 1)));
    assert_eq!(compile(r"\Bb\B").find("abc"), Some((1, 2)));
    assert_eq!(compile(r"\b_\b").find("-_-"), Some((1, 2)));
}

#[test]
fn counted_repetitions() {
    assert_eq!(compile("a{2}").find("aaaa"), Some((0, 2)));
    assert_eq!(compile("a{2,}").find("aaaa"), Some((0, 4)));
    assert_eq!(compile("a{2,3}").find("aaaa"), Some((0, 3)));
    assert_eq!(compile("a{2,3}?").find("aaaa"), Some((0, 2)));
    assert_eq!(compile("a{0}b").find("ab"), Some((1, 2)));
    assert_eq!(compile("(a{2}){3}").find("aaaaaaa"), Some((0, 6)));
    assert_eq!(compile("a{,2}").find("a{,2}"), Some((0, 5)));
    assert_eq!(compile("a{x").find("a{x"), Some((0, 3)));
}

#[test]
fn lazy_and_swapped_repetitions() {
    assert_eq!(compile("a+?").find("aaa"), Some((0, 1)));
    assert_eq!(compile("a*?b").find("aab"), Some((0, 3)));
    assert_eq!(compile("(?U)a+").find("aaa"), Some((0, 1)));
    assert_eq!(compile("(?U)a+?").find("aaa"), Some((0, 3)));
    assert_eq!(compile("a??b").find("ab"), Some((0, 2)));
}

#[test]
fn flags_and_their_scope() {
    assert_eq!(compile("(?i:a)b").find("Ab"), Some((0, 2)));
    assert_eq!(compile("(?i:a)b").find("AB"), None);
    assert_eq!(compile("a(?i)b").find("aB"), Some((0, 2)));
    assert_eq!(compile("(a(?i)b)c").find("aBC"), None);
    assert_eq!(compile("(?i)a(?-i)b").find("Ab"), Some((0, 2)));
    assert_eq!(compile("(?i)a(?-i)b").find("AB"), None);
    assert_eq!(compile("(?s).+").find("a\nb"), Some((0, 3)));
    assert_eq!(compile(".+").find("a\nb"), Some((0, 1)));
    assert_eq!(all_matches(&compile("(?m)^b$"), "a\nb\nc"), vec![(2, 3)]);
    assert_eq!(compile("^b$").find("a\nb\nc"), None);
    assert_eq!(compile(r"(?m)\Ab").find("a\nb"), None);
}

#[test]
fn classes_in_brackets() {
    assert_eq!(compile("[a-c]+").find("xxabcabx"), Some((2, 7)));
    assert_eq!(compile("[^a-c]+").find("abxyzc"), Some((2, 5)));
    assert_eq!(compile("[]a]+").find("x]a]"), Some((1, 4)));
    assert_eq!(compile("[a-]+").find("x-a-"), Some((1, 4)));
    assert_eq!(compile(r"[\d\s]+").find("ab1 2\tc"), Some((2, 6)));
    assert_eq!(compile(r"[\D]+").find("abc123abc"), Some((0, 3)));
    assert_eq!(compile(r"[^\W]+").find("  ab_1  "), Some((2, 6)));
    assert_eq!(compile("[[:alpha:]]+").find("12ab34"), Some((2, 4)));
    assert_eq!(compile("[^[:^alnum:]]+").find("  abc0123  "), Some((2, 9)));
    assert_eq!(compile("[[:^digit:]]+").find("12ab34"), Some((2, 4)));
    assert_eq!(compile(r"[\]\\]+").find(r"a]\]"), Some((1, 4)));
    assert_eq!(compile(r"\p{Any}+").find("a日"), Some((0, 4)));
    assert_eq!(compile(r"\P{ASCII}+").find("ab日本c"), Some((2, 8)));
    assert_eq!(compile(r"[\p{ASCII}]+").find("日ab"), Some((3, 5)));
}

#[test]
fn groups_in_unmatched_branches_are_absent() {
    let re = compile("(a)|(b)");
    let caps = re.captures("b").unwrap();
    assert_eq!(caps.pos(0), Some((0, 1)));
    assert_eq!(caps.pos(1), None);
    assert_eq!(caps.pos(2), Some((0, 1)));
    assert_eq!(caps.at(1), "");
    let mut spans = Vec::new();
    let mut it = caps.iter_pos();
    while let Some(span) = it.next() {
        spans.push(span);
    }
    assert_eq!(spans, vec![Some((0, 1)), None, Some((0, 1))]);
}

#[test]
fn a_name_given_twice_belongs_to_the_later_group() {
    let re = compile("(?P<n>a)(?P<n>b)");
    let caps = re.captures("ab").unwrap();
    assert_eq!(caps.name("n"), "b");
}

#[test]
fn priorities_of_alternatives_and_repetitions() {
    assert_eq!(compile("a|b|c").find("cba"), Some((0, 1)));
    assert_eq!(compile("(a|ab)(c|bcd)(d*)").find("abcd"), Some((0, 4)));
    let caps = compile("(a|ab)(c|bcd)(d*)").captures("abcd").unwrap();
    assert_eq!(caps.at(1), "a");
    assert_eq!(caps.at(2), "bcd");
    assert_eq!(caps.at(3), "");
    assert_eq!(compile("(a*)+").find("aaa"), Some((0, 3)));
    assert_eq!(compile("(a|bcdef|g|ab|c|d|e|efg|fg)*").find("abcdefg"), Some((0, 7)));
    assert_eq!(compile("<([^>])+>").find("<strong>hello there</strong>"), Some((0, 8)));
    assert_eq!(compile(r".*([a-z]\b)").find("andrew gallant"), Some((0, 14)));
    assert_eq!(compile(r"\**").find("**"), Some((0, 2)));
}

#[test]
fn replace_each_uses_the_given_texts_in_order() {
    let re = compile(r"\d+");
    let subs = vec!["one".to_string(), "two".to_string()];
    assert_eq!(re.replace_each("a1b22c333", &subs), "aonebtwoc333");
    assert_eq!(re.replace_each("a1b", &subs), "aoneb");
    assert_eq!(re.replace_each("a1b", &Vec::new()), "a1b");
}

#[test]
fn unicode_categories() {
    let roman = "ⅡⅢⅳⅥ";
    assert_eq!(compile(r"\pN+").find(roman), Some((0, roman.len())));
    let caps = compile(r"\pN(?P<sec>\pN)").captures(roman).unwrap();
    assert_eq!(caps.name("sec"), "Ⅲ");
    assert_eq!(compile(r"\p{Lu}\p{Ll}+").find("été Été"), Some((6, 11)));
    assert_eq!(compile(r"\pL+").find("12 日本語 34"), Some((3, 12)));
    assert_eq!(compile(r"\PL+").find("ab12 cd"), Some((2, 5)));
    assert_eq!(compile(r"\p{Nd}+").find("x٣٤y"), Some((1, 5)));
    assert_eq!(compile(r"[\pP\pS]+").find("a«+»b"), Some((1, 6)));
    assert_eq!(compile(r"\pZ").find("a\u{2003}b"), Some((1, 4)));
    assert_eq!(compile(r"\pM").find("e\u{301}"), Some((1, 3)));
    assert_eq!(compile(r"[^\pL]+").find("ab--cd"), Some((2, 4)));
    assert!(Regexp::new(r"\p{Cherokee}").is_err());
}
