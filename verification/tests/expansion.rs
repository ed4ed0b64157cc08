use proc_macro2::{Delimiter, TokenStream, TokenTree};
use wasm_keyboard_macros::error::ErrorKind;
use wasm_keyboard_macros::start_keyboard_handler::{emit_items, Args};
use wasm_keyboard_macros::{
    new_primitive_key_handler, new_simplified_key_handler, start_keywise_keyboard_handler,
};

fn stream(text: &str) -> TokenStream {
    text.parse().unwrap()
}

/// The texts of the tokens of a stream, groups opened up, spacing left out.
fn flat(stream: TokenStream) -> Vec<String> {
    let mut texts = Vec::new();
    for tree in stream {
        match tree {
            TokenTree::Group(group) => {
                let (open, close) = match group.delimiter() {
                    Delimiter::Parenthesis => ("(", ")"),
                    Delimiter::Brace => ("{", "}"),
                    Delimiter::Bracket => ("[", "]"),
                    Delimiter::None => ("", ""),
                };
                texts.push(open.to_string());
                texts.extend(flat(group.stream()));
                texts.push(close.to_string());
            }
            other => texts.push(other.to_string()),
        }
    }
    texts
}

const HANDLER: &str = "KeyboardEventCode::KeyW, state = (), \
    keydown = { let body = body.clone(); move |_state| { body.append(1); } }, \
    keyup = { move |_state| { release(); } }";

const HANDLER_WITH_KEYPRESS: &str = "KeyboardEventCode::KeyW, state = 0u8, \
    keydown = { move |_state| down() }, \
    keyup = { |_state| up() }, \
    keypress = { let n = 1; let m = 2; move |_state| press(n, m) }";

#[test]
fn primitive_key_handler_keeps_the_bodies_as_written() {
    let code = new_primitive_key_handler(stream(HANDLER), false).unwrap();
    let expected = stream(
        "::wasm_keyboard::implementors::KeyHandler::<
            { ::core::convert::identity::<::wasm_keyboard::uievents_code::KeyboardEventCode>(KeyboardEventCode::KeyW) as u8 },
            _, _, _
        >::new(
            (),
            { let body = body.clone(); move |_state| { body.append(1); } },
            { move |_state| { release(); } }
        )",
    );
    assert_eq!(flat(code), flat(expected));
}

#[test]
fn primitive_key_handler_with_keypress_has_four_inferred_types() {
    let code = new_primitive_key_handler(stream(HANDLER_WITH_KEYPRESS), true).unwrap();
    let expected = stream(
        "::wasm_keyboard::implementors::KeyHandler::<
            { ::core::convert::identity::<::wasm_keyboard::uievents_code::KeyboardEventCode>(KeyboardEventCode::KeyW) as u8 },
            _, _, _, _
        >::new(
            0u8,
            { move |_state| down() },
            { |_state| up() },
            { let n = 1; let m = 2; move |_state| press(n, m) }
        )",
    );
    assert_eq!(flat(code), flat(expected));
}

#[test]
fn simplified_key_handler_wraps_each_closure() {
    let code = new_simplified_key_handler(stream(HANDLER), false).unwrap();
    let expected = stream(
        "::wasm_keyboard::implementors::KeyHandler::<
            { ::core::convert::identity::<::wasm_keyboard::uievents_code::KeyboardEventCode>(KeyboardEventCode::KeyW) as u8 },
            _, _, _
        >::new(
            (::std::cell::Cell::new(false), ()),
            {
                let body = body.clone();
                move |(ref is_pressed, ref state)| {
                    let handler = |_state| { body.append(1); };
                    if !is_pressed.get() {
                        is_pressed.set(true);
                        handler(state);
                    }
                }
            },
            {
                move |(ref is_pressed, ref state)| {
                    let handler = |_state| { release(); };
                    is_pressed.set(false);
                    handler(state);
                }
            }
        )",
    );
    assert_eq!(flat(code), flat(expected));
}

#[test]
fn simplified_key_handler_with_keypress_clears_the_flag_after_the_closure() {
    let code = new_simplified_key_handler(stream(HANDLER_WITH_KEYPRESS), true).unwrap();
    let expected = stream(
        "::wasm_keyboard::implementors::KeyHandler::<
            { ::core::convert::identity::<::wasm_keyboard::uievents_code::KeyboardEventCode>(KeyboardEventCode::KeyW) as u8 },
            _, _, _, _
        >::new(
            (::std::cell::Cell::new(false), 0u8),
            {
                move |(ref is_pressed, ref state)| {
                    let handler = |_state| down();
                    if !is_pressed.get() {
                        is_pressed.set(true);
                        handler(state);
                    }
                }
            },
            {
                move |(ref is_pressed, ref state)| {
                    let handler = |_state| up();
                    is_pressed.set(false);
                    handler(state);
                }
            },
            {
                let n = 1;
                let m = 2;
                move |(ref is_pressed, ref state)| {
                    let handler = |_state| press(n, m);
                    handler(state);
                    is_pressed.set(false);
                }
            }
        )",
    );
    assert_eq!(flat(code), flat(expected));
}

#[test]
fn keywise_keyboard_handler_makes_type_instance_and_listeners() {
    let input = stream("kh: Kh, document, [KEY_W => w_handler, keys::KEY_A => make(1, 2),]");
    let code = start_keywise_keyboard_handler(input, false).unwrap();
    let expected = stream(
        "struct Kh<T0, T1>
        where
            T0: ::wasm_keyboard::KeyHandler, T1: ::wasm_keyboard::KeyHandler
        {
            key_handler0: T0, key_handler1: T1
        }

        impl<T0, T1> Kh<T0, T1>
        where
            T0: ::wasm_keyboard::KeyHandler, T1: ::wasm_keyboard::KeyHandler
        {
            fn inner_handle_keydown(&self, event: &::web_sys::KeyboardEvent) {
                match event.code().as_str() {
                    KEY_W => self.key_handler0.handle_keydown(),
                    keys::KEY_A => self.key_handler1.handle_keydown(),
                    _ => (),
                }
            }
            fn inner_handle_keyup(&self, event: &::web_sys::KeyboardEvent) {
                match event.code().as_str() {
                    KEY_W => self.key_handler0.handle_keyup(),
                    keys::KEY_A => self.key_handler1.handle_keyup(),
                    _ => (),
                }
            }
        }

        let kh = ::std::rc::Rc::new(Kh {
            key_handler0: w_handler, key_handler1: make(1, 2)
        });

        {
            let kh = kh.clone();
            let __handler = ::wasm_bindgen::closure::Closure::<dyn ::core::ops::FnMut(_)>::new::<_>(
                move |event: KeyboardEvent| kh.inner_handle_keydown(&event),
            );
            document
                .add_event_listener_with_callback(
                    \"keydown\",
                    ::wasm_bindgen::JsCast::unchecked_ref(__handler.as_ref()),
                )
                .unwrap();
            ::wasm_bindgen::closure::Closure::forget(__handler);
        }
        {
            let kh = kh.clone();
            let __handler = ::wasm_bindgen::closure::Closure::<dyn ::core::ops::FnMut(_)>::new::<_>(
                move |event: KeyboardEvent| kh.inner_handle_keyup(&event),
            );
            document
                .add_event_listener_with_callback(
                    \"keyup\",
                    ::wasm_bindgen::JsCast::unchecked_ref(__handler.as_ref()),
                )
                .unwrap();
            ::wasm_bindgen::closure::Closure::forget(__handler);
        }",
    );
    assert_eq!(flat(code), flat(expected));
}

#[test]
fn keywise_keyboard_handler_with_keypress_has_three_methods_and_listeners() {
    let input = stream("kh: Kh, document, [KEY_W => w_handler]");
    let code = flat(start_keywise_keyboard_handler(input, true).unwrap());
    let count = |word: &str| code.iter().filter(|text| text.as_str() == word).count();
    assert_eq!(count("inner_handle_keydown"), 2);
    assert_eq!(count("inner_handle_keyup"), 2);
    assert_eq!(count("inner_handle_keypress"), 2);
    assert_eq!(count("handle_keypress"), 1);
    assert_eq!(count("\"keypress\""), 1);
    assert_eq!(count("add_event_listener_with_callback"), 3);
    assert_eq!(count("T0"), 6);
}

#[test]
fn empty_list_of_bindings_is_a_validation_error() {
    let error = start_keywise_keyboard_handler(stream("kh: Kh, document, []"), false).unwrap_err();
    assert_eq!(error.kind, ErrorKind::Validation);
    assert_eq!(error.message, "No key handlers were provided.");
    assert_eq!(error.position, None);
    assert_eq!(error.to_string(), "No key handlers were provided.");
}

#[test]
fn swapped_keywords_name_the_expected_keyword() {
    let input = stream("KeyboardEventCode::KeyW, state = (), keyup = { |_s| () }, keydown = { |_s| () }");
    let error = new_simplified_key_handler(input, false).unwrap_err();
    assert_eq!(error.kind, ErrorKind::Syntax);
    assert_eq!(error.message, "expected `keydown`");
    assert_eq!(error.position, Some(10));
}

#[test]
fn block_without_trailing_closure_names_the_event() {
    let input = stream("Code::KeyW, state = (), keydown = { |_s| () }, keyup = { let a = 1; a }");
    let error = new_primitive_key_handler(input, false).unwrap_err();
    assert_eq!(error.kind, ErrorKind::Syntax);
    assert_eq!(error.message, "last statement of `keyup` event handler is expected to be a closure");
    let input = stream("Code::KeyW, state = (), keydown = { |_s| (); }, keyup = { |_s| () }");
    let error = new_primitive_key_handler(input, false).unwrap_err();
    assert_eq!(error.kind, ErrorKind::Syntax);
    assert_eq!(error.message, "last statement of `keydown` event handler is expected to be a closure");
}

#[test]
fn empty_block_names_the_event() {
    let input = stream("Code::KeyW, state = (), keydown = { }, keyup = { |_s| () }");
    let error = new_primitive_key_handler(input, false).unwrap_err();
    assert_eq!(error.kind, ErrorKind::Syntax);
    assert_eq!(error.message, "expected `keydown` event handler");
    assert_eq!(error.position, Some(12));
}

#[test]
fn number_of_bodies_is_held_against_the_configuration() {
    let error = new_primitive_key_handler(stream(HANDLER), true).unwrap_err();
    assert_eq!(error.kind, ErrorKind::ConfigurationMismatch);
    assert_eq!(error.message, "expected 3 event handlers: `keydown`, `keyup` and `keypress`");
    assert_eq!(error.position, None);
    let error = new_simplified_key_handler(stream(HANDLER_WITH_KEYPRESS), false).unwrap_err();
    assert_eq!(error.kind, ErrorKind::ConfigurationMismatch);
    assert_eq!(error.message, "expected 2 event handlers: `keydown` and `keyup`");
}

#[test]
fn missing_separators_are_syntax_errors() {
    let error = new_primitive_key_handler(stream("Code::KeyW state = ()"), false).unwrap_err();
    assert_eq!(error.kind, ErrorKind::Syntax);
    assert_eq!(error.message, "expected `,`");
    assert_eq!(error.position, Some(4));
    let error = new_primitive_key_handler(stream("Code::KeyW, state ()"), false).unwrap_err();
    assert_eq!(error.message, "expected `=`");
    assert_eq!(error.position, Some(6));
    let error = new_primitive_key_handler(stream("Code::KeyW, status = ()"), false).unwrap_err();
    assert_eq!(error.message, "expected `state`");
    assert_eq!(error.position, Some(6));
    let error = start_keywise_keyboard_handler(stream("kh Kh, document, [A => a]"), false).unwrap_err();
    assert_eq!(error.message, "expected `:`");
    assert_eq!(error.position, Some(1));
    let error = start_keywise_keyboard_handler(stream("kh: Kh, document, [A = a]"), false).unwrap_err();
    assert_eq!(error.kind, ErrorKind::Syntax);
    assert_eq!(error.message, "expected `=>`");
    assert_eq!(error.position, Some(6));
    let error = start_keywise_keyboard_handler(stream("kh: Kh, document, (A => a)"), false).unwrap_err();
    assert_eq!(error.message, "expected square brackets");
    let error = start_keywise_keyboard_handler(stream("kh: Kh, document,"), false).unwrap_err();
    assert_eq!(error.message, "unexpected end of input, expected square brackets");
    assert_eq!(error.position, Some(6));
    let error = new_primitive_key_handler(stream("Code::KeyW, state = (), keydown = (1)"), false).unwrap_err();
    assert_eq!(error.message, "expected curly braces");
}

#[test]
fn tokens_after_the_form_are_unexpected() {
    let input = stream("kh: Kh, document, [A => a] b");
    let error = start_keywise_keyboard_handler(input, false).unwrap_err();
    assert_eq!(error.kind, ErrorKind::Syntax);
    assert_eq!(error.message, "unexpected token");
    assert_eq!(error.position, Some(7));
    let text = format!("{}, keypress = {{ |_s| () }} extra", HANDLER);
    let error = new_primitive_key_handler(stream(&text), true).unwrap_err();
    assert_eq!(error.kind, ErrorKind::Syntax);
    assert_eq!(error.message, "unexpected token");
}

#[test]
fn empty_list_wins_over_tokens_after_it() {
    let error = start_keywise_keyboard_handler(stream("kh: Kh, document, [] junk"), false).unwrap_err();
    assert_eq!(error.kind, ErrorKind::Validation);
}

#[test]
fn what_syn_refuses_is_a_syntax_error_with_its_message() {
    let error = new_primitive_key_handler(stream(", state = ()"), false).unwrap_err();
    assert_eq!(error.kind, ErrorKind::Syntax);
    assert_eq!(error.message, "expected identifier");
    assert_eq!(error.position, Some(0));
    let error = start_keywise_keyboard_handler(stream("struct: Kh, document, [A => a]"), false).unwrap_err();
    assert_eq!(error.kind, ErrorKind::Syntax);
    assert_eq!(error.message, "expected identifier");
    let error = new_primitive_key_handler(stream("Code::KeyW, state = "), false).unwrap_err();
    assert_eq!(error.kind, ErrorKind::Syntax);
    assert_eq!(error.message, "unexpected end of input, expected expression");
}

#[test]
fn target_may_be_any_expression() {
    let input = stream("kh: Kh, window.document().unwrap(), [KEY_W => w]");
    let code = flat(start_keywise_keyboard_handler(input, false).unwrap());
    let text = code.join(" ");
    assert!(text.contains("; window . document ( ) . unwrap ( ) . add_event_listener_with_callback ( \"keydown\" ,"));
    assert!(text.contains("; window . document ( ) . unwrap ( ) . add_event_listener_with_callback ( \"keyup\" ,"));
}

#[test]
fn parts_of_the_startup_code_follow_each_other() {
    let args = Args::parse(&stream("kh: Kh, document, [A => a, B => b, C => c]")).ok().unwrap();
    assert_eq!(args.fields(), vec!["key_handler0", "key_handler1", "key_handler2"]);
    let mut items = stream("");
    args.extend_with_items(&mut items, false);
    let mut binding = stream("");
    args.extend_with_var_binding(&mut binding);
    let mut listeners = stream("");
    args.extend_with_code_adding_listeners(&mut listeners, false);
    let mut all = stream("before");
    args.extend_with_startup_code(&mut all, false);
    let mut expected = vec!["before".to_string()];
    expected.extend(flat(items.clone()));
    expected.extend(flat(binding.clone()));
    expected.extend(flat(listeners));
    assert_eq!(flat(all), expected);
    assert_eq!(
        flat(binding),
        flat(stream("let kh = ::std::rc::Rc::new(Kh { key_handler0: a, key_handler1: b, key_handler2: c });"))
    );
    let mut again = stream("");
    emit_items(&mut again, &args.ty_name, &args.key_handlers, false);
    assert_eq!(flat(again), flat(items));
}

#[test]
fn spacing_of_the_written_operators() {
    let code = new_primitive_key_handler(stream(HANDLER), false).unwrap();
    let mut trees = code.into_iter();
    let mut spacing = Vec::new();
    for _ in 0..2 {
        match trees.next() {
            Some(TokenTree::Punct(punct)) => spacing.push((punct.as_char(), punct.spacing())),
            other => panic!("no punctuation: {:?}", other),
        }
    }
    assert_eq!(spacing, vec![(':', proc_macro2::Spacing::Joint), (':', proc_macro2::Spacing::Alone)]);
    match trees.next() {
        Some(TokenTree::Ident(ident)) => assert_eq!(ident.to_string(), "wasm_keyboard"),
        other => panic!("no identifier: {:?}", other),
    }
}

#[test]
fn empty_input_is_a_syntax_error_at_the_start() {
    for keypress in [false, true] {
        let error = new_primitive_key_handler(stream(""), keypress).unwrap_err();
        assert_eq!(error.kind, ErrorKind::Syntax);
        assert_eq!(error.position, Some(0));
        assert!(error.message.starts_with("unexpected end of input"));
        let error = new_simplified_key_handler(stream(""), keypress).unwrap_err();
        assert_eq!(error.kind, ErrorKind::Syntax);
        assert_eq!(error.position, Some(0));
        let error = start_keywise_keyboard_handler(stream(""), keypress).unwrap_err();
        assert_eq!(error.kind, ErrorKind::Syntax);
        assert_eq!(error.message, "unexpected end of input, expected identifier");
        assert_eq!(error.position, Some(0));
    }
}

#[test]
fn many_bindings_are_numbered_in_order() {
    let mut text = String::from("kh: Kh, document, [");
    for index in 0..120 {
        text.push_str(&format!("K{} => h{}, ", index, index));
    }
    text.push(']');
    let code = flat(start_keywise_keyboard_handler(stream(&text), false).unwrap());
    let at = code.iter().position(|token| token == "key_handler119").unwrap();
    assert_eq!(code[at + 1], ":");
    assert_eq!(code[at + 2], "T119");
    let arm = code.iter().position(|token| token == "K57").unwrap();
    assert_eq!(
        code[arm..arm + 10].join(" "),
        "K57 = > self . key_handler57 . handle_keydown ( )"
    );
    let value = code.iter().rposition(|token| token == "key_handler57").unwrap();
    assert_eq!(code[value + 1..value + 3].join(" "), ": h57");
}

fn invisible(text: &str) -> TokenStream {
    let mut wrapped = TokenStream::new();
    wrapped.extend([TokenTree::Group(proc_macro2::Group::new(Delimiter::None, stream(text)))]);
    wrapped
}

#[test]
fn literal_of_an_unknown_kind_is_a_syntax_error() {
    let error = new_primitive_key_handler(
        stream("Code::KeyW, state = c\"x\", keydown = { |s| 1 }, keyup = { |s| 2 }"),
        false,
    )
    .unwrap_err();
    assert_eq!(error.kind, ErrorKind::Syntax);
    assert_eq!(error.message, "unrecognized literal");
    assert_eq!(error.position, Some(0));
    let error = new_simplified_key_handler(
        stream("Code::KeyW, state = (), keydown = { |s| 1 }, keyup = { |s| f(c\"x\") }"),
        false,
    )
    .unwrap_err();
    assert_eq!(error.kind, ErrorKind::Syntax);
    assert_eq!(error.message, "unrecognized literal");
    let error = new_primitive_key_handler(stream("A<c\"x\">, state = ()"), false).unwrap_err();
    assert_eq!(error.message, "unrecognized literal");
    let error = start_keywise_keyboard_handler(stream("kh: Kh, document, [A => f(cr\"x\")]"), false).unwrap_err();
    assert_eq!(error.kind, ErrorKind::Syntax);
    assert_eq!(error.message, "unrecognized literal");
    let error = start_keywise_keyboard_handler(stream("kh: Kh, open(c\"x\"), [A => a]"), false).unwrap_err();
    assert_eq!(error.message, "unrecognized literal");
    assert_eq!(error.position, Some(4));
    let code = new_primitive_key_handler(
        stream("Code::KeyW, state = (\"s\", b'x', 1.5e3, 0x1f, 'c', br\"r\"), keydown = { |s| 1 }, keyup = { |s| 2 }"),
        false,
    );
    assert!(code.is_ok());
}

#[test]
fn fragments_in_invisible_groups_are_read() {
    let mut input = stream("");
    input.extend(invisible("keys::KeyW"));
    input.extend(stream(", state ="));
    input.extend(invisible("make(1)"));
    input.extend(stream(", keydown ="));
    input.extend(invisible("{ move |s| down(s) }"));
    input.extend(stream(", keyup ="));
    input.extend(invisible("{ |s| up(s) }"));
    input.extend(invisible(""));
    let code = new_simplified_key_handler(input, false).unwrap();
    let text = flat(code).join(" ");
    assert!(text.contains("let handler = | s | down ( s ) ;"));
    assert!(text.contains("let handler = | s | up ( s ) ;"));
    assert!(text.contains("( keys : : KeyW ) as u8"));
    let mut input = stream("kh: Kh, document,");
    input.extend(invisible("[A => a, B => b]"));
    input.extend(invisible(""));
    let code = flat(start_keywise_keyboard_handler(input, false).unwrap());
    assert!(code.contains(&"key_handler1".to_string()));
}
