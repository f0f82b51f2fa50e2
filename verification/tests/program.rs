use regexp::chars::{char_eq, class_has, is_word, lower, upper};
use regexp::compile::{count_groups, DynamicProgram, Inst, MaybeStaticClass, Program, StaticProgram};
use regexp::expand::expand;
use regexp::parse::{parse, Ast, Greed, Repeater};
use regexp::text::{char_to_byte_indices, to_chars, width};
use regexp::vm::run;
use regexp::{ErrorKind, Regexp};

fn show(insts: &[Inst]) -> Vec<String> {
    insts.iter().map(|i| format!("{:?}", i)).collect()
}

fn program(source: &str) -> DynamicProgram {
    let ast = match parse(source) {
        Ok(ast) => ast,
        Err(err) => panic!("{} at {}: {}", source, err.pos, err.msg),
    };
    DynamicProgram::new(source, Box::new(ast))
}

#[test]
fn alternation_compiles_to_split_and_jump() {
    let ast = Ast::Alt(Box::new(Ast::Literal('a', false)), Box::new(Ast::Literal('b', false)));
    let p = DynamicProgram::new("a|b", Box::new(ast));
    assert_eq!(
        show(p.insts()),
        vec![
            "Save(0)",
            "Split(2, 4)",
            "Char_('a', false)",
            "Jump(5)",
            "Char_('b', false)",
            "Save(1)",
            "Match"
        ]
    );
    assert_eq!(p.regex(), "a|b");
    assert_eq!(p.prefix(), &[] as &[char]);
    assert_eq!(p.num_captures(), 1);
    assert!(p.names().is_empty());
}

#[test]
fn repetitions_compile_by_kind_and_preference() {
    let rep = |kind, greed| {
        let ast = Ast::Rep(Box::new(Ast::Literal('a', false)), kind, greed);
        show(DynamicProgram::new("", Box::new(ast)).insts())
    };
    assert_eq!(
        rep(Repeater::ZeroOne, Greed::Greedy),
        vec!["Save(0)", "Split(2, 3)", "Char_('a', false)", "Save(1)", "Match"]
    );
    assert_eq!(
        rep(Repeater::ZeroOne, Greed::Ungreedy),
        vec!["Save(0)", "Split(3, 2)", "Char_('a', false)", "Save(1)", "Match"]
    );
    assert_eq!(
        rep(Repeater::ZeroMore, Greed::Greedy),
        vec!["Save(0)", "Split(2, 4)", "Char_('a', false)", "Jump(1)", "Save(1)", "Match"]
    );
    assert_eq!(
        rep(Repeater::ZeroMore, Greed::Ungreedy),
        vec!["Save(0)", "Split(4, 2)", "Char_('a', false)", "Jump(1)", "Save(1)", "Match"]
    );
    assert_eq!(
        rep(Repeater::OneMore, Greed::Greedy),
        vec!["Save(0)", "Char_('a', false)", "Split(1, 3)", "Save(1)", "Match"]
    );
    assert_eq!(
        rep(Repeater::OneMore, Greed::Ungreedy),
        vec!["Save(0)", "Char_('a', false)", "Split(3, 1)", "Save(1)", "Match"]
    );
}

#[test]
fn groups_compile_to_two_saves_and_a_name() {
    let p = program("(?P<x>a)(b)");
    assert_eq!(
        show(p.insts()),
        vec![
            "Save(0)",
            "Save(2)",
            "Char_('a', false)",
            "Save(3)",
            "Save(4)",
            "Char_('b', false)",
            "Save(5)",
            "Save(1)",
            "Match"
        ]
    );
    assert_eq!(p.num_captures(), 3);
    assert_eq!(p.names().len(), 11);
    assert_eq!(p.names()[1], Some("x".to_string()));
    assert_eq!(p.names()[0], None);
    assert_eq!(p.names()[2], None);
}

#[test]
fn leaves_compile_to_one_instruction() {
    let p = program(r"(?i)a.[b-c]^$\b\B");
    assert_eq!(
        show(p.insts()),
        vec![
            "Save(0)",
            "Char_('a', true)",
            "Any_(false)",
            "CharClass(DynamicClass([('b', 'c')]), false, true)",
            "EmptyBegin(false)",
            "EmptyEnd(false)",
            "EmptyWordBoundary(true)",
            "EmptyWordBoundary(false)",
            "Save(1)",
            "Match"
        ]
    );
    assert_eq!(show(program("").insts()), vec!["Save(0)", "Save(1)", "Match"]);
}

#[test]
fn literal_prefix_stops_at_the_first_other_instruction() {
    assert_eq!(program("abc+d").prefix(), &['a', 'b', 'c']);
    assert_eq!(program("abc*d").prefix(), &['a', 'b']);
    assert_eq!(program("abc").prefix(), &['a', 'b', 'c']);
    assert_eq!(program("(?i)abc").prefix(), &[] as &[char]);
    assert_eq!(program("a(?i)bc").prefix(), &['a']);
    assert_eq!(program("(a)bc").prefix(), &[] as &[char]);
}

#[test]
fn group_count_is_half_the_slots() {
    assert_eq!(count_groups(&[]), 0);
    assert_eq!(count_groups(&[Inst::Save(0)]), 0);
    assert_eq!(count_groups(&[Inst::Save(0), Inst::Save(1)]), 1);
    assert_eq!(count_groups(&[Inst::Save(5), Inst::Match, Inst::Save(2)]), 3);
    assert_eq!(count_groups(&[Inst::Save(usize::MAX)]), usize::MAX / 2 + 1);
}

#[test]
fn static_programs_answer_like_dynamic_ones() {
    let insts: &'static [Inst] = Box::leak(
        vec![Inst::Save(0), Inst::Char_('a', false), Inst::Save(1), Inst::Match].into_boxed_slice(),
    );
    let names: &'static [Option<String>] = Box::leak(vec![None].into_boxed_slice());
    let prefix: &'static [char] = Box::leak(vec!['a'].into_boxed_slice());
    let p = StaticProgram { regex: "a", insts, names, prefix };
    assert_eq!(p.regex(), "a");
    assert_eq!(p.insts().len(), 4);
    assert_eq!(p.names().len(), 1);
    assert_eq!(p.prefix(), &['a']);
    assert_eq!(p.num_captures(), 1);
    assert_eq!(run(p.insts(), &['b', 'a'], true), vec![Some((1, 2))]);
}

#[test]
fn classes_are_read_as_slices() {
    let owned = MaybeStaticClass::DynamicClass(vec![('a', 'b')]);
    assert_eq!(owned.as_slice(), &[('a', 'b')]);
    let table: &'static [(char, char)] = Box::leak(vec![('0', '9')].into_boxed_slice());
    assert_eq!(MaybeStaticClass::StaticClass(table).as_slice(), &[('0', '9')]);
}

#[test]
fn the_machine_runs_any_program() {
    let chars: Vec<char> = "xaby".chars().collect();
    let prog = vec![
        Inst::Save(0),
        Inst::Char_('a', false),
        Inst::Save(2),
        Inst::Char_('b', false),
        Inst::Save(3),
        Inst::Save(1),
        Inst::Match,
    ];
    assert_eq!(run(&prog, &chars, true), vec![Some((1, 3)), Some((2, 3))]);
    assert_eq!(run(&prog, &chars, false), vec![Some((1, 3))]);
    assert_eq!(run(&prog, &['z'], true), vec![None, None]);
    assert_eq!(run(&[], &chars, true), Vec::<Option<(usize, usize)>>::new());
    // Without `Save(1)` the slots give no group: nothing is reported.
    assert_eq!(run(&[Inst::Save(0), Inst::Match], &chars, true), Vec::new());
    // A span that would end before it starts is not reported.
    let backwards = vec![Inst::Save(1), Inst::Char_('a', false), Inst::Save(0), Inst::Match];
    assert_eq!(run(&backwards, &['a'], true), vec![None]);
    // Targets outside the program end a thread.
    assert_eq!(run(&[Inst::Jump(7), Inst::Match], &chars, true), Vec::new());
    // A loop without progress ends.
    let spin = vec![Inst::Save(0), Inst::Split(1, 2), Inst::Jump(1), Inst::Save(1), Inst::Match];
    assert_eq!(run(&spin, &chars, true), vec![None]);
}

#[test]
fn parsing_builds_the_tree() {
    let tree = |s: &str| format!("{:?}", parse(s).unwrap());
    assert_eq!(tree(""), "Nothing");
    assert_eq!(tree("a"), "Literal('a', false)");
    assert_eq!(tree("ab"), "Cat([Literal('a', false), Literal('b', false)])");
    assert_eq!(
        tree("a|b|c"),
        "Alt(Literal('a', false), Alt(Literal('b', false), Literal('c', false)))"
    );
    assert_eq!(tree("a*?"), "Rep(Literal('a', false), ZeroMore, Ungreedy)");
    assert_eq!(tree("(?:a)"), "Literal('a', false)");
    assert_eq!(tree("(a)"), "Capture(1, None, Literal('a', false))");
    assert_eq!(
        tree("((?P<n>a))"),
        "Capture(1, None, Capture(2, Some(\"n\"), Literal('a', false)))"
    );
    assert_eq!(tree("a{2}"), "Cat([Literal('a', false), Literal('a', false)])");
    assert_eq!(tree("a{1}"), "Literal('a', false)");
    assert_eq!(tree("a{0}"), "Nothing");
    assert_eq!(
        tree("a{1,}"),
        "Cat([Literal('a', false), Rep(Literal('a', false), ZeroMore, Greedy)])"
    );
    assert_eq!(
        tree("a{0,2}"),
        "Rep(Cat([Literal('a', false), Rep(Literal('a', false), ZeroOne, Greedy)]), ZeroOne, Greedy)"
    );
    assert_eq!(tree("[c-da-b]"), "Class([('a', 'b'), ('c', 'd')], false, false)");
    assert_eq!(tree(r"[^\d]"), "Class([('0', '9')], true, false)");
    assert_eq!(tree(r"\D"), "Class([('0', '9')], true, false)");
    assert_eq!(
        tree(r"[\D]"),
        "Class([('\\0', '/'), (':', '\\u{10ffff}')], false, false)"
    );
    assert_eq!(tree(r"\n\t\x41\."), "Cat([Literal('\\n', false), Literal('\\t', false), Literal('A', false), Literal('.', false)])");
    assert_eq!(tree("(?s)."), "Dot(true)");
    assert_eq!(tree("(?m)^$"), "Cat([Begin(true), End(true)])");
}

#[test]
fn parse_errors_are_syntax_errors() {
    let err = parse("a)").unwrap_err();
    assert!(matches!(err.kind, ErrorKind::BadSyntax));
    assert_eq!(err.pos, 1);
    assert_eq!(err.msg, "unexpected closing parenthesis");
    assert_eq!(parse("(").unwrap_err().msg, "missing closing parenthesis");
    assert_eq!(parse("+").unwrap_err().msg, "missing argument to repetition operator");
    assert_eq!(parse("[").unwrap_err().msg, "missing closing bracket");
    assert_eq!(parse("[b-a]").unwrap_err().msg, "invalid character class range");
    assert_eq!(parse(r"\p{Nope}").unwrap_err().msg, "unknown character class");
    assert_eq!(parse(r"[\P{Any}]").unwrap_err().msg, "negated class is not supported inside brackets");
    assert_eq!(parse(r"\y").unwrap_err().msg, "unknown escape sequence");
    assert_eq!(parse("\\").unwrap_err().msg, "trailing backslash");
    assert_eq!(parse(r"\x{}").unwrap_err().msg, "invalid hexadecimal escape");
    assert_eq!(parse("(?P<a-b>x)").unwrap_err().msg, "invalid group name");
    assert_eq!(parse("(?z)").unwrap_err().msg, "invalid flags");
    assert_eq!(parse("a{3,2}").unwrap_err().msg, "invalid repetition count");
}

#[test]
fn characters_fold_and_classify() {
    assert!(is_word('a') && is_word('_') && is_word('9') && is_word('é') && is_word('日'));
    assert!(!is_word('-') && !is_word(' '));
    assert_eq!(upper('a'), 'A');
    assert_eq!(upper('ß'), 'ß');
    assert_eq!(lower('A'), 'a');
    assert_eq!(lower('İ'), 'İ');
    assert!(char_eq(true, 'a', 'A') && !char_eq(false, 'a', 'A') && char_eq(false, 'a', 'a'));
    assert!(class_has(&[('a', 'c')], false, 'b'));
    assert!(!class_has(&[('a', 'c')], false, 'B'));
    assert!(class_has(&[('a', 'c')], true, 'B'));
    assert!(class_has(&[('A', 'C')], true, 'b'));
    assert!(!class_has(&[], true, 'b'));
}

#[test]
fn byte_offsets_follow_the_widths() {
    assert_eq!(width('a'), 1);
    assert_eq!(width('\u{7f}'), 1);
    assert_eq!(width('\u{80}'), 2);
    assert_eq!(width('\u{7ff}'), 2);
    assert_eq!(width('\u{800}'), 3);
    assert_eq!(width('\u{ffff}'), 3);
    assert_eq!(width('\u{10000}'), 4);
    assert_eq!(char_to_byte_indices("a日é𝄞"), vec![0, 1, 4, 6, 10]);
    assert_eq!(char_to_byte_indices(""), vec![0]);
    assert_eq!(to_chars("a日"), vec!['a', '日']);
}

#[test]
fn expansion_of_a_template() {
    let re = Regexp::new(r"(?P<k>\w+)=(\d*)").unwrap();
    let caps = re.captures("..key=42..").unwrap();
    assert_eq!(expand(&caps, "$2<-$k ($0)"), "42<-key (key=42)");
    assert_eq!(expand(&caps, "$k_x|$1x|$"), "||$");
    assert_eq!(expand(&caps, "$$k"), "$k");
    assert_eq!(expand(&caps, "日$1-日"), "日key-日");
    assert_eq!(expand(&caps, "日$1日"), "日");
    let mut texts = Vec::new();
    let mut it = caps.iter();
    while let Some(t) = it.next() {
        texts.push(t);
    }
    assert_eq!(texts, vec!["key=42", "key", "42"]);
}
