use proc_macro2::{Delimiter, TokenStream, TokenTree};
use wasm_keyboard_macros::decl_keyboard_handler::{
    check_table, read_bindings, KeyHandler, KeyHandlers,
};
use wasm_keyboard_macros::emit::numbered_name;
use wasm_keyboard_macros::error::{ErrorKind, MacroError, ParseFailure};
use wasm_keyboard_macros::events::EventKind;
use wasm_keyboard_macros::key_handlers::{read_body, read_head, Args, KeyEventHandler};
use wasm_keyboard_macros::simplified::{
    closure_by_reference, event_kind_at, guarded_block_tokens, pressed_state_tokens,
};
use wasm_keyboard_macros::reader::{
    check_keyword, enter_groups, expect_fat_arrow, is_at_end, is_literal_known, is_readable,
    read_statements, expect_group, expect_keyword, expect_punct, expected_message, read_expr,
    read_ident, read_path,
};
use wasm_keyboard_macros::start_keyboard_handler::type_parameter_name;
use wasm_keyboard_macros::syntax::{Parsed, Statement};
use wasm_keyboard_macros::tokens::Delim;
use wasm_keyboard_macros::{decl_keyboard_handler, new_key_handler};

fn stream(text: &str) -> TokenStream {
    text.parse().unwrap()
}

fn texts(stream: TokenStream) -> Vec<String> {
    let mut found = Vec::new();
    for tree in stream {
        match tree {
            TokenTree::Group(group) => {
                let (open, close) = match group.delimiter() {
                    Delimiter::Parenthesis => ("(", ")"),
                    Delimiter::Brace => ("{", "}"),
                    Delimiter::Bracket => ("[", "]"),
                    Delimiter::None => ("", ""),
                };
                found.push(open.to_string());
                found.extend(texts(group.stream()));
                found.push(close.to_string());
            }
            other => found.push(other.to_string()),
        }
    }
    found
}

fn same(left: &TokenStream, right: &str) -> bool {
    texts(left.clone()) == texts(stream(right))
}

#[test]
fn numbered_names_are_decimal() {
    assert_eq!(numbered_name("T", 0), "T0");
    assert_eq!(numbered_name("T", 9), "T9");
    assert_eq!(numbered_name("T", 10), "T10");
    assert_eq!(numbered_name("key_handler", 1234567890), "key_handler1234567890");
    assert_eq!(wasm_keyboard_macros::start_keyboard_handler::Args::ith_field(42), "key_handler42");
    assert_eq!(type_parameter_name(105), "T105");
}

#[test]
fn expected_message_names_the_token() {
    assert_eq!(expected_message("state"), "expected `state`");
    assert_eq!(expected_message("=>"), "expected `=>`");
}

#[test]
fn punctuation_is_read_one_character_at_a_time() {
    let rest = expect_punct(&stream(", a b"), ',', ",").ok().unwrap();
    assert!(same(&rest, "a b"));
    let rest = expect_punct(&stream("== x"), '=', "=").ok().unwrap();
    assert!(same(&rest, "= x"));
    let failure = expect_punct(&stream("a , b"), ',', ",").err().unwrap();
    assert_eq!(failure.message, "expected `,`");
    assert_eq!(failure.remaining, 3);
    let failure = expect_punct(&stream(""), ',', ",").err().unwrap();
    assert_eq!(failure.message, "expected `,`");
    assert_eq!(failure.remaining, 0);
}

#[test]
fn fat_arrow_needs_both_characters_joined() {
    let rest = expect_fat_arrow(&stream("=> x")).ok().unwrap();
    assert!(same(&rest, "x"));
    let failure = expect_fat_arrow(&stream("= > x")).err().unwrap();
    assert_eq!(failure.message, "expected `=>`");
    assert_eq!(failure.remaining, 3);
    assert!(expect_fat_arrow(&stream("=")).is_err());
    assert!(expect_fat_arrow(&stream("== x")).is_err());
    assert!(expect_fat_arrow(&stream("")).is_err());
}

#[test]
fn groups_are_read_by_their_delimiter() {
    let group = expect_group(&stream("[a, b] c"), Delim::Bracket, "expected square brackets").ok().unwrap();
    assert!(same(&group.inner, "a, b"));
    assert!(same(&group.rest, "c"));
    let failure = expect_group(&stream("{a} c"), Delim::Bracket, "expected square brackets").err().unwrap();
    assert_eq!(failure.message, "expected square brackets");
    assert_eq!(failure.remaining, 2);
    let failure = expect_group(&stream(""), Delim::Brace, "expected curly braces").err().unwrap();
    assert_eq!(failure.message, "unexpected end of input, expected curly braces");
    assert_eq!(failure.remaining, 0);
}

#[test]
fn keywords_are_identifiers_with_a_given_text() {
    let rest = expect_keyword(&stream("state = 1"), "state").ok().unwrap();
    assert!(same(&rest, "= 1"));
    let failure = expect_keyword(&stream("status = 1"), "state").err().unwrap();
    assert_eq!(failure.message, "expected `state`");
    assert_eq!(failure.remaining, 2);
    let failure = expect_keyword(&stream("= 1"), "state").err().unwrap();
    assert_eq!(failure.message, "expected identifier");
    assert_eq!(failure.remaining, 2);
    let failure = expect_keyword(&stream("fn = 1"), "fn").err().unwrap();
    assert_eq!(failure.message, "expected identifier");
}

#[test]
fn paths_and_expressions_end_where_the_grammar_says() {
    let path = read_path(&stream("a::b::C, rest")).ok().unwrap();
    assert!(same(&path.value, "a::b::C"));
    assert!(same(&path.rest, ", rest"));
    let expr = read_expr(&stream("Foo::<A, B>::new(|a, b| a + b, 1), next = 2")).ok().unwrap();
    assert!(same(&expr.value, "Foo::<A, B>::new(|a, b| a + b, 1)"));
    assert!(same(&expr.rest, ", next = 2"));
    let expr = read_expr(&stream("|a, b| a + b, next")).ok().unwrap();
    assert!(same(&expr.value, "|a, b| a + b"));
    assert!(same(&expr.rest, ", next"));
    let ident = read_ident(&stream("kh: Kh")).ok().unwrap();
    assert!(same(&ident.value, "kh"));
    assert!(same(&ident.rest, ": Kh"));
    let failure = read_expr(&stream(", a")).err().unwrap();
    assert_eq!(failure.message, "expected expression");
    assert_eq!(failure.remaining, 2);
}

#[test]
fn closure_by_reference_drops_the_move_before_the_parameters() {
    assert!(same(&closure_by_reference(&stream("move |x| x + 1")), "|x| x + 1"));
    assert!(same(&closure_by_reference(&stream("move || go()")), "|| go()"));
    assert!(same(&closure_by_reference(&stream("|x| x + 1")), "|x| x + 1"));
    assert!(same(&closure_by_reference(&stream("async move |x| { x }")), "async |x| { x }"));
    assert!(same(&closure_by_reference(&stream("static move |x| { x }")), "static |x| { x }"));
    assert!(same(
        &closure_by_reference(&stream("|x| { let f = move |y| y; f(x) }")),
        "|x| { let f = move |y| y; f(x) }"
    ));
    assert!(same(&closure_by_reference(&stream("|x| move_it | x")), "|x| move_it | x"));
    assert!(same(&closure_by_reference(&stream("|x| a | move | b")), "|x| a | move | b"));
    assert!(same(&closure_by_reference(&stream("")), ""));
    assert!(same(&closure_by_reference(&stream("move")), "move"));
}

#[test]
fn event_body_is_split_into_prelude_and_closure() {
    let input = stream(", keydown = { let a = 1; b(); ; move |s| a } , next");
    let parts = read_body(&input, EventKind::Asserted).ok().unwrap();
    assert!(same(&parts.body.prelude, "let a = 1; b(); ;"));
    assert!(same(&parts.body.closure, "move |s| a"));
    assert!(same(&parts.rest, ", next"));
    let mut tokens = stream("x");
    parts.body.to_tokens(&mut tokens);
    assert!(same(&tokens, "x { let a = 1; b(); ; move |s| a }"));
    let failure = read_body(&stream(", keydown = { let a = ; }"), EventKind::Asserted).err().unwrap();
    assert_eq!(failure.remaining, 1);
    let failure = read_body(&stream(", keyup = { |s| s }"), EventKind::Asserted).err().unwrap();
    assert_eq!(failure.message, "expected `keydown`");
    assert_eq!(failure.remaining, 2);
}

#[test]
fn body_from_statements_asks_for_a_trailing_closure() {
    let statement = |text: &str, is_closure: bool| Statement { tokens: stream(text), is_closure };
    let body = KeyEventHandler::from_statements(
        EventKind::Released,
        vec![statement("let a = 1;", false), statement("f();", false), statement("|s| a", true)],
        4,
    )
    .ok()
    .unwrap();
    assert!(same(&body.prelude, "let a = 1; f();"));
    assert!(same(&body.closure, "|s| a"));
    let failure: ParseFailure = KeyEventHandler::from_statements(
        EventKind::Released,
        vec![statement("|s| a", true), statement("f()", false)],
        4,
    )
    .err()
    .unwrap();
    assert_eq!(failure.message, "last statement of `keyup` event handler is expected to be a closure");
    assert_eq!(failure.remaining, 4);
    let failure = KeyEventHandler::from_statements(EventKind::Sustained, Vec::new(), 7).err().unwrap();
    assert_eq!(failure.message, "expected `keypress` event handler");
    assert_eq!(failure.remaining, 7);
}

#[test]
fn event_kinds_stand_in_a_fixed_order() {
    assert_eq!(event_kind_at(0), EventKind::Asserted);
    assert_eq!(event_kind_at(1), EventKind::Released);
    assert_eq!(event_kind_at(2), EventKind::Sustained);
}

#[test]
fn bindings_are_read_up_to_the_end_of_the_list() {
    let list = read_bindings(stream("A => a, b::B => make(1, 2), C => |x, y| x,")).ok().unwrap();
    assert_eq!(list.len(), 3);
    assert!(same(&list[0].key_path, "A"));
    assert!(same(&list[0].key_handler_expr, "a"));
    assert!(same(&list[1].key_path, "b::B"));
    assert!(same(&list[1].key_handler_expr, "make(1, 2)"));
    assert!(same(&list[2].key_handler_expr, "|x, y| x"));
    assert_eq!(read_bindings(stream("")).ok().unwrap().len(), 0);
    assert_eq!(read_bindings(stream("A => a")).ok().unwrap().len(), 1);
    let failure = read_bindings(stream("A => a B => b")).err().unwrap();
    assert_eq!(failure.message, "expected `,`");
    assert_eq!(failure.remaining, 4);
    let failure = read_bindings(stream("A => a,, B => b")).err().unwrap();
    assert_eq!(failure.message, "expected identifier");
    let parts = KeyHandler::parse(&stream("A => a, rest")).ok().unwrap();
    assert!(same(&parts.binding.key_path, "A"));
    assert!(same(&parts.rest, ", rest"));
}

#[test]
fn declared_table_has_items_only() {
    let table = KeyHandlers::parse(&stream("kh: Kh, [KEY_W => w]")).ok().unwrap();
    assert!(same(&table.instance_name, "kh"));
    assert!(same(&table.ty_name, "Kh"));
    assert_eq!(table.key_handlers.len(), 1);
    let code = decl_keyboard_handler(stream("kh: Kh, [KEY_W => w]"), false).unwrap();
    assert!(same(
        &code,
        "struct Kh<T0> where T0: ::wasm_keyboard::KeyHandler { key_handler0: T0 }
         impl<T0> Kh<T0> where T0: ::wasm_keyboard::KeyHandler {
            fn inner_handle_keydown(&self, event: &::web_sys::KeyboardEvent) {
                match event.code().as_str() { KEY_W => self.key_handler0.handle_keydown(), _ => (), }
            }
            fn inner_handle_keyup(&self, event: &::web_sys::KeyboardEvent) {
                match event.code().as_str() { KEY_W => self.key_handler0.handle_keyup(), _ => (), }
            }
         }"
    ));
    let error: MacroError = decl_keyboard_handler(stream("kh: Kh, []"), false).unwrap_err();
    assert_eq!(error.kind, ErrorKind::Validation);
    let error = decl_keyboard_handler(stream("kh: Kh, document, [A => a]"), false).unwrap_err();
    assert_eq!(error.kind, ErrorKind::Syntax);
    assert_eq!(error.message, "expected square brackets");
    assert_eq!(error.position, Some(4));
}

#[test]
fn plain_form_carries_its_expressions_through() {
    let code = new_key_handler(stream("Code::KeyW, (), |s| down(s), { move |s| up(s) }"), false).unwrap();
    assert!(same(
        &code,
        "::wasm_keyboard::implementors::KeyHandler::<
            { ::core::convert::identity::<::wasm_keyboard::uievents_code::KeyboardEventCode>(Code::KeyW) as u8 },
            _, _, _
        >::new((), |s| down(s), { move |s| up(s) })"
    ));
    let error = new_key_handler(stream("Code::KeyW, (), f, g"), true).unwrap_err();
    assert_eq!(error.kind, ErrorKind::ConfigurationMismatch);
    let error = new_key_handler(stream("Code::KeyW, (), f, g, h, i"), true).unwrap_err();
    assert_eq!(error.kind, ErrorKind::Syntax);
    assert_eq!(error.message, "unexpected token");
    let error = new_key_handler(stream("Code::KeyW, (), f"), false).unwrap_err();
    assert_eq!(error.kind, ErrorKind::Syntax);
    assert_eq!(error.message, "expected `,`");
    assert!(new_key_handler(stream("Code::KeyW, (), f, g, h"), true).is_ok());
}

#[test]
fn head_holds_path_and_state() {
    let head = read_head(&stream("keys::Code::KeyW, state = Cell::new((1, 2)), keydown = {}")).ok().unwrap();
    assert!(same(&head.path, "keys::Code::KeyW"));
    assert!(same(&head.state, "Cell::new((1, 2))"));
    assert!(same(&head.rest, ", keydown = {}"));
    let failure = read_head(&stream("keys::Code::KeyW, state = , keydown = {}")).err().unwrap();
    assert_eq!(failure.message, "expected expression");
    assert_eq!(failure.remaining, 4);
}

#[test]
fn handler_form_is_read_with_two_or_three_bodies() {
    let two = "K, state = (), keydown = { |s| 1 }, keyup = { |s| 2 }";
    let three = "K, state = (), keydown = { |s| 1 }, keyup = { |s| 2 }, keypress = { |s| 3 }";
    let args = Args::parse(&stream(two)).ok().unwrap();
    assert_eq!(args.key_event_handlers.len(), 2);
    assert!(same(&args.path, "K"));
    assert!(same(&args.state, "()"));
    assert!(same(&args.key_event_handlers[1].closure, "|s| 2"));
    assert!(same(&args.key_event_handlers[1].prelude, ""));
    let args = Args::parse(&stream(three)).ok().unwrap();
    assert_eq!(args.key_event_handlers.len(), 3);
    assert!(same(&args.key_event_handlers[2].closure, "|s| 3"));
    assert_eq!(args.validate(false).err().unwrap().kind, ErrorKind::ConfigurationMismatch);
    assert!(Args::read(&stream(three), true).is_ok());
    assert!(Args::read(&stream(two), false).is_ok());
    let failure = Args::parse(&stream("K, state = (), keydown = { |s| 1 }, keyup = { |s| 2 }, keydown = { |s| 3 }"))
        .err()
        .unwrap();
    assert_eq!(failure.message, "expected `keypress`");
    let failure = Args::parse(&stream("K, state = (), keydown = { |s| 1 }")).err().unwrap();
    assert_eq!(failure.message, "expected `,`");
    assert_eq!(failure.remaining, 0);
    let error = Args::read(&stream("K, state = (), keydown = { |s| 1 }"), false).err().unwrap();
    assert_eq!(error.kind, ErrorKind::Syntax);
    assert_eq!(error.position, Some(9));
}

#[test]
fn wrapped_bodies_keep_the_flag() {
    let handler = KeyEventHandler { prelude: stream("let n = 1;"), closure: stream("move |s| go(s, n)") };
    assert_eq!(event_kind_at(7), EventKind::Sustained);
    assert!(same(
        &guarded_block_tokens(EventKind::Asserted, &handler),
        "{ let n = 1; move |(ref is_pressed, ref state)| {
            let handler = |s| go(s, n);
            if !is_pressed.get() { is_pressed.set(true); handler(state); }
        } }"
    ));
    assert!(same(
        &guarded_block_tokens(EventKind::Released, &handler),
        "{ let n = 1; move |(ref is_pressed, ref state)| {
            let handler = |s| go(s, n);
            is_pressed.set(false);
            handler(state);
        } }"
    ));
    assert!(same(
        &guarded_block_tokens(EventKind::Sustained, &handler),
        "{ let n = 1; move |(ref is_pressed, ref state)| {
            let handler = |s| go(s, n);
            handler(state);
            is_pressed.set(false);
        } }"
    ));
    assert!(same(&pressed_state_tokens(&stream("Rc::new(0)")), "(::std::cell::Cell::new(false), Rc::new(0))"));
}

#[test]
fn invisible_group_around_a_path_is_read_as_the_path() {
    let mut input = TokenStream::new();
    input.extend([TokenTree::Group(proc_macro2::Group::new(Delimiter::None, stream("keys::KeyW")))]);
    input.extend(stream(", state = 1"));
    let path = read_path(&input).ok().unwrap();
    assert!(same(&path.value, "keys::KeyW"));
    assert!(same(&path.rest, ", state = 1"));
}

#[test]
fn keyword_is_held_against_the_identifier_that_was_read() {
    let rest = check_keyword(Parsed { value: stream("state"), rest: stream("= 1") }, "state").ok().unwrap();
    assert!(same(&rest, "= 1"));
    let failure = check_keyword(Parsed { value: stream("keyup"), rest: stream("= 1") }, "keydown").err().unwrap();
    assert_eq!(failure.message, "expected `keydown`");
    assert_eq!(failure.remaining, 2);
    let failure = check_keyword(Parsed { value: stream(""), rest: stream("") }, "state").err().unwrap();
    assert_eq!(failure.message, "expected `state`");
    assert_eq!(failure.remaining, 0);
}

fn invisible(text: &str) -> TokenStream {
    let mut wrapped = TokenStream::new();
    wrapped.extend([TokenTree::Group(proc_macro2::Group::new(Delimiter::None, stream(text)))]);
    wrapped
}

fn join(parts: Vec<TokenStream>) -> TokenStream {
    let mut all = TokenStream::new();
    for part in parts {
        all.extend(part);
    }
    all
}

#[test]
fn literal_kinds_are_told_apart_by_their_start() {
    for known in ["\"a\"", "r\"a\"", "r#\"a\"#", "'a'", "b'a'", "b\"a\"", "br\"a\"", "1", "0x1f", "1.5e3f64", "-1"] {
        assert!(is_literal_known(known), "{}", known);
    }
    for unknown in ["", "c\"a\"", "cr\"a\"", "b", "bx", "true", "x"] {
        assert!(!is_literal_known(unknown), "{}", unknown);
    }
}

#[test]
fn unknown_literals_are_found_at_any_depth() {
    assert!(is_readable(&stream("a + 1, \"s\", b'x', [1.5, { 'c' }]")));
    assert!(is_readable(&stream("")));
    assert!(!is_readable(&stream("c\"x\"")));
    assert!(!is_readable(&stream("a, f(1, [2, { g(cr\"x\") }])")));
    assert!(!is_readable(&join(vec![stream("a,"), invisible("1 + c\"x\"")])));
}

#[test]
fn unknown_literal_is_refused_before_it_is_read() {
    let failure = read_expr(&stream("f(c\"x\"), next")).err().unwrap();
    assert_eq!(failure.message, "unrecognized literal");
    assert_eq!(failure.remaining, 4);
    let failure = read_path(&stream("A<c\"x\">")).err().unwrap();
    assert_eq!(failure.message, "unrecognized literal");
    assert_eq!(failure.remaining, 4);
    let failure = read_statements(&stream("let a = c\"x\"; |s| a"), 7).err().unwrap();
    assert_eq!(failure.message, "unrecognized literal");
    assert_eq!(failure.remaining, 7);
    let failure = read_statements(&stream("let a = ; |s| a"), 7).err().unwrap();
    assert_eq!(failure.remaining, 7);
    let statements = read_statements(&stream("let a = \"x\"; |s| a"), 7).ok().unwrap();
    assert_eq!(statements.len(), 2);
    assert!(!statements[0].is_closure);
    assert!(statements[1].is_closure);
    let failure = read_body(&stream(", keydown = { |s| c\"x\" }"), EventKind::Asserted).err().unwrap();
    assert_eq!(failure.message, "unrecognized literal");
    assert_eq!(failure.remaining, 1);
}

#[test]
fn invisible_groups_at_the_cursor_are_opened() {
    assert!(same(&enter_groups(&stream("a b")), "a b"));
    assert!(same(&enter_groups(&stream("")), ""));
    assert!(same(&enter_groups(&join(vec![invisible("a b"), stream("c")])), "a b c"));
    assert!(same(&enter_groups(&join(vec![invisible(""), invisible(""), stream("c")])), "c"));
    let nested = join(vec![invisible(""), stream("x")]);
    let mut outer = TokenStream::new();
    outer.extend([TokenTree::Group(proc_macro2::Group::new(Delimiter::None, nested))]);
    outer.extend(stream("y"));
    assert!(same(&enter_groups(&outer), "x y"));
    let later = join(vec![stream("a"), invisible("b c")]);
    assert_eq!(enter_groups(&later).into_iter().count(), 2);
    assert!(is_at_end(&stream("")));
    assert!(is_at_end(&join(vec![invisible(""), invisible("")])));
    assert!(!is_at_end(&join(vec![invisible(""), stream("a")])));
    assert!(!is_at_end(&invisible("a")));
}

#[test]
fn steps_look_through_invisible_groups() {
    let rest = expect_punct(&join(vec![invisible(", a"), stream("b")]), ',', ",").ok().unwrap();
    assert!(same(&rest, "a b"));
    let failure = expect_punct(&join(vec![invisible("a"), stream(",")]), ',', ",").err().unwrap();
    assert_eq!(failure.remaining, 2);
    let rest = expect_fat_arrow(&join(vec![invisible("=>"), stream("x")])).ok().unwrap();
    assert!(same(&rest, "x"));
    let group = expect_group(&join(vec![invisible("{ a } b"), stream("c")]), Delim::Brace, "expected curly braces")
        .ok()
        .unwrap();
    assert!(same(&group.inner, "a"));
    assert!(same(&group.rest, "b c"));
    let group = expect_group(&invisible("{ a }"), Delim::Invisible, "expected invisible group").ok().unwrap();
    assert!(same(&group.inner, "{ a }"));
    let failure = expect_group(&invisible("[ a ]"), Delim::Brace, "expected curly braces").err().unwrap();
    assert_eq!(failure.message, "expected curly braces");
    assert_eq!(failure.remaining, 1);
}

#[test]
fn block_inside_an_invisible_group_is_a_body() {
    let input = join(vec![stream(", keydown ="), invisible("{ let a = 1; move |s| a }"), stream(", next")]);
    let parts = read_body(&input, EventKind::Asserted).ok().unwrap();
    assert!(same(&parts.body.prelude, "let a = 1;"));
    assert!(same(&parts.body.closure, "move |s| a"));
    assert!(same(&parts.rest, ", next"));
}

#[test]
fn table_is_checked_for_bindings_and_for_its_end() {
    assert!(check_table(9, 2, 0, true).is_ok());
    assert!(check_table(9, 2, 1, true).is_ok());
    let error = check_table(9, 0, 0, true).err().unwrap();
    assert_eq!(error.kind, ErrorKind::Validation);
    assert_eq!(error.position, None);
    let error = check_table(9, 0, 3, false).err().unwrap();
    assert_eq!(error.kind, ErrorKind::Validation);
    let error = check_table(9, 2, 3, false).err().unwrap();
    assert_eq!(error.kind, ErrorKind::Syntax);
    assert_eq!(error.message, "unexpected token");
    assert_eq!(error.position, Some(6));
}
