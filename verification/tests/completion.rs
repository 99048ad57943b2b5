use completion::raw::{
    RawChunk, RawResult, RawResults, RawTemplate, CHUNK_COLON, CHUNK_COMMA,
    CHUNK_CURRENT_PARAMETER, CHUNK_EQUALS,
    CHUNK_HORIZONTAL_SPACE, CHUNK_INFORMATIVE, CHUNK_LEFT_ANGLE, CHUNK_LEFT_BRACE,
    CHUNK_LEFT_BRACKET, CHUNK_LEFT_PAREN, CHUNK_OPTIONAL, CHUNK_PLACEHOLDER, CHUNK_RESULT_TYPE,
    CHUNK_RIGHT_ANGLE, CHUNK_RIGHT_BRACE, CHUNK_RIGHT_BRACKET, CHUNK_RIGHT_PAREN, CHUNK_SEMICOLON,
    CHUNK_TEXT, CHUNK_TYPED_TEXT, CHUNK_VERTICAL_SPACE, CURSOR_INVALID_CODE,
    OPTION_INCLUDE_BRIEF_COMMENTS, OPTION_INCLUDE_CODE_PATTERNS, OPTION_INCLUDE_MACROS,
};
use completion::{
    Availability, Completer, CompletionChunk, CompletionResults, CompletionString, DecodeError,
    Diagnostic,
};

fn chunk(kind: u32, text: &str) -> RawChunk {
    RawChunk { kind, text: text.to_string(), nested: 0 }
}

fn optional_chunk(nested: usize) -> RawChunk {
    RawChunk { kind: CHUNK_OPTIONAL, text: String::new(), nested }
}

fn template(priority: u32, chunks: Vec<RawChunk>) -> RawTemplate {
    RawTemplate {
        priority,
        availability: 0,
        annotations: Vec::new(),
        parent: None,
        brief: None,
        chunks,
    }
}

fn empty_raw_results() -> RawResults {
    RawResults {
        templates: Vec::new(),
        results: Vec::new(),
        context: 0,
        container_kind: CURSOR_INVALID_CODE,
        container_incomplete: false,
        selector: None,
        usr: None,
        diagnostics: Vec::new(),
    }
}

fn decode_single(priority: u32, chunks: Vec<RawChunk>) -> CompletionString {
    let arena = vec![template(priority, chunks)];
    CompletionString::from_raw(&arena, 0).unwrap()
}

#[test]
fn decodes_nested_template_in_order() {
    // A candidate shaped `foo(` + optional placeholder + `)`.
    let arena = vec![
        template(
            42,
            vec![
                chunk(CHUNK_TYPED_TEXT, "foo"),
                chunk(CHUNK_LEFT_PAREN, ""),
                optional_chunk(1),
                chunk(CHUNK_RIGHT_PAREN, ""),
            ],
        ),
        template(7, vec![chunk(CHUNK_PLACEHOLDER, "int x")]),
    ];
    let s = CompletionString::from_raw(&arena, 0).unwrap();
    let chunks = s.get_chunks();
    assert_eq!(chunks.len(), 4);
    assert_eq!(chunks[0].get_text(), Some("foo".to_string()));
    assert_eq!(chunks[1].get_text(), Some("(".to_string()));
    assert!(chunks[2].is_optional());
    assert_eq!(chunks[2].get_text(), None);
    assert_eq!(chunks[3].get_text(), Some(")".to_string()));
    assert_eq!(s.get_typed_text(), Some("foo".to_string()));
    match &chunks[2] {
        CompletionChunk::Optional(nested) => {
            assert_eq!(nested.get_priority(), 7);
            let inner = nested.get_chunks();
            assert_eq!(inner.len(), 1);
            assert_eq!(inner[0].get_text(), Some("int x".to_string()));
        },
        other => panic!("expected an optional chunk, got {:?}", other),
    }
}

#[test]
fn punctuation_chunks_yield_fixed_literals() {
    let cases: Vec<(u32, &str)> = vec![
        (CHUNK_COLON, ":"),
        (CHUNK_COMMA, ","),
        (CHUNK_EQUALS, "="),
        (CHUNK_SEMICOLON, ";"),
        (CHUNK_LEFT_ANGLE, "<"),
        (CHUNK_RIGHT_ANGLE, ">"),
        (CHUNK_LEFT_BRACE, "{"),
        (CHUNK_RIGHT_BRACE, "}"),
        (CHUNK_LEFT_PAREN, "("),
        (CHUNK_RIGHT_PAREN, ")"),
        (CHUNK_LEFT_BRACKET, "["),
        (CHUNK_RIGHT_BRACKET, "]"),
    ];
    for (kind, expected) in cases {
        let s = decode_single(1, vec![chunk(kind, "")]);
        let chunks = s.get_chunks();
        assert_eq!(chunks[0].get_text(), Some(expected.to_string()));
        assert!(!chunks[0].is_optional());
    }
}

#[test]
fn text_bearing_chunks_yield_their_text() {
    let cases: Vec<u32> = vec![
        CHUNK_HORIZONTAL_SPACE,
        CHUNK_VERTICAL_SPACE,
        CHUNK_CURRENT_PARAMETER,
        CHUNK_INFORMATIVE,
        CHUNK_PLACEHOLDER,
        CHUNK_RESULT_TYPE,
        CHUNK_TEXT,
        CHUNK_TYPED_TEXT,
    ];
    for kind in cases {
        let s = decode_single(1, vec![chunk(kind, "payload")]);
        assert_eq!(s.get_chunks()[0].get_text(), Some("payload".to_string()));
    }
}

#[test]
fn priority_ranks_before_typed_text() {
    // Priorities 10 and 20: the priority-10 candidate sorts first even
    // though its typed text sorts after the other's.
    let a = decode_single(10, vec![chunk(CHUNK_TYPED_TEXT, "zzz")]);
    let b = decode_single(20, vec![chunk(CHUNK_TYPED_TEXT, "aaa")]);
    assert_eq!(a.cmp(&b), std::cmp::Ordering::Less);
    assert_eq!(b.cmp(&a), std::cmp::Ordering::Greater);
}

#[test]
fn missing_typed_text_ranks_first_on_equal_priority() {
    // Both priority 5; the optional-only template has no typed text.
    let arena = vec![
        template(5, vec![optional_chunk(1)]),
        template(9, vec![chunk(CHUNK_PLACEHOLDER, "x")]),
    ];
    let none = CompletionString::from_raw(&arena, 0).unwrap();
    let some = decode_single(5, vec![chunk(CHUNK_TYPED_TEXT, "abc")]);
    assert_eq!(none.get_typed_text(), None);
    assert_eq!(none.cmp(&some), std::cmp::Ordering::Less);
    assert_eq!(some.cmp(&none), std::cmp::Ordering::Greater);
}

#[test]
fn typed_texts_rank_lexicographically_on_equal_priority() {
    let a = decode_single(5, vec![chunk(CHUNK_TYPED_TEXT, "abc")]);
    let b = decode_single(5, vec![chunk(CHUNK_TYPED_TEXT, "abd")]);
    let c = decode_single(5, vec![chunk(CHUNK_TYPED_TEXT, "abc")]);
    assert_eq!(a.cmp(&b), std::cmp::Ordering::Less);
    assert_eq!(b.cmp(&a), std::cmp::Ordering::Greater);
    assert_eq!(a.cmp(&c), std::cmp::Ordering::Equal);
    // A proper prefix sorts before the longer text.
    let p = decode_single(5, vec![chunk(CHUNK_TYPED_TEXT, "ab")]);
    assert_eq!(p.cmp(&a), std::cmp::Ordering::Less);
}

#[test]
fn sorting_results_uses_the_ranking_order() {
    let arena = vec![
        template(20, vec![chunk(CHUNK_TYPED_TEXT, "aaa")]),
        template(10, vec![chunk(CHUNK_TYPED_TEXT, "zzz")]),
        template(10, vec![chunk(CHUNK_TYPED_TEXT, "mmm")]),
    ];
    let raw = RawResults {
        templates: arena,
        results: vec![
            RawResult { kind: 1, template: 0 },
            RawResult { kind: 2, template: 1 },
            RawResult { kind: 3, template: 2 },
        ],
        ..empty_raw_results()
    };
    let results = CompletionResults::from_raw(raw).unwrap();
    let mut list = results.get_results();
    list.sort_by(|a, b| a.cmp(b));
    let keys: Vec<(u32, Option<String>)> =
        list.iter().map(|r| (r.string.get_priority(), r.string.get_typed_text())).collect();
    assert_eq!(
        keys,
        vec![
            (10, Some("mmm".to_string())),
            (10, Some("zzz".to_string())),
            (20, Some("aaa".to_string())),
        ]
    );
}

#[test]
fn structural_equality_tracks_decoded_chunks() {
    let arena = vec![
        template(
            3,
            vec![chunk(CHUNK_TYPED_TEXT, "foo"), chunk(CHUNK_LEFT_PAREN, ""), optional_chunk(1)],
        ),
        template(8, vec![chunk(CHUNK_PLACEHOLDER, "int x")]),
    ];
    // Two decodes of the same template, retrieved via different calls.
    let s1 = CompletionString::from_raw(&arena, 0).unwrap();
    let s2 = CompletionString::from_raw(&arena, 0).unwrap();
    assert!(s1 == s2);
    assert!(s2 == s1);
    let s3 = s1.duplicate();
    assert!(s1 == s3 && s2 == s3);
    // Equality ignores metadata: same chunks, different priority.
    let a = decode_single(1, vec![chunk(CHUNK_TYPED_TEXT, "foo")]);
    let b = decode_single(2, vec![chunk(CHUNK_TYPED_TEXT, "foo")]);
    assert!(a == b);
    // Different chunk text breaks equality.
    let c = decode_single(1, vec![chunk(CHUNK_TYPED_TEXT, "bar")]);
    assert!(a != c);
    // A nested sub-template with different content breaks equality.
    let arena2 = vec![
        template(
            3,
            vec![chunk(CHUNK_TYPED_TEXT, "foo"), chunk(CHUNK_LEFT_PAREN, ""), optional_chunk(1)],
        ),
        template(8, vec![chunk(CHUNK_PLACEHOLDER, "long y")]),
    ];
    let s4 = CompletionString::from_raw(&arena2, 0).unwrap();
    assert!(s1 != s4);
}

#[test]
fn decoding_twice_yields_equal_chunk_sequences() {
    let arena = vec![
        template(3, vec![chunk(CHUNK_TYPED_TEXT, "foo"), optional_chunk(1)]),
        template(8, vec![chunk(CHUNK_PLACEHOLDER, "int x"), chunk(CHUNK_COMMA, "")]),
    ];
    let s = CompletionString::from_raw(&arena, 0).unwrap();
    let once = s.get_chunks();
    let twice = s.get_chunks();
    assert_eq!(once, twice);
}

#[test]
fn empty_result_set_degrades_to_empty_views() {
    let mut raw = empty_raw_results();
    raw.diagnostics.push(Diagnostic { text: "missing include".to_string() });
    let results = CompletionResults::from_raw(raw).unwrap();
    assert_eq!(results.get_results().len(), 0);
    assert!(results.get_context().is_none());
    assert!(results.get_container_kind().is_none());
    assert!(results.get_objc_selector().is_none());
    assert!(results.get_usr().is_none());
    let diags = results.get_diagnostics();
    assert_eq!(diags.len(), 1);
    assert_eq!(diags[0].text, "missing include");
}

#[test]
fn releasing_an_empty_result_set_is_harmless() {
    let results = CompletionResults::from_raw(empty_raw_results()).unwrap();
    assert_eq!(results.get_results().len(), 0);
    drop(results);
}

#[test]
fn unknown_chunk_kind_is_a_decode_error() {
    let arena = vec![template(1, vec![chunk(99, "what")])];
    assert_eq!(CompletionString::from_raw(&arena, 0), Err(DecodeError::UnknownChunkKind));
}

#[test]
fn unknown_availability_is_a_decode_error() {
    let mut t = template(1, vec![chunk(CHUNK_TYPED_TEXT, "x")]);
    t.availability = 9;
    let arena = vec![t];
    assert_eq!(CompletionString::from_raw(&arena, 0), Err(DecodeError::UnknownAvailability));
}

#[test]
fn template_index_outside_the_arena_is_a_decode_error() {
    let arena = vec![template(1, vec![])];
    assert_eq!(CompletionString::from_raw(&arena, 4), Err(DecodeError::InvalidTemplateIndex));
}

#[test]
fn backward_nested_template_is_a_decode_error() {
    // An optional chunk must point strictly later into the arena: pointing
    // at the template itself would loop forever.
    let arena = vec![template(1, vec![optional_chunk(0)])];
    assert_eq!(CompletionString::from_raw(&arena, 0), Err(DecodeError::InvalidNestedTemplate));
    let arena2 = vec![template(1, vec![optional_chunk(5)])];
    assert_eq!(CompletionString::from_raw(&arena2, 0), Err(DecodeError::InvalidNestedTemplate));
}

#[test]
fn one_bad_candidate_fails_the_result_set_decode() {
    let raw = RawResults {
        templates: vec![template(1, vec![chunk(CHUNK_TYPED_TEXT, "ok")])],
        results: vec![RawResult { kind: 1, template: 0 }, RawResult { kind: 1, template: 3 }],
        ..empty_raw_results()
    };
    match CompletionResults::from_raw(raw) {
        Err(DecodeError::InvalidTemplateIndex) => {},
        other => panic!("expected an invalid template index, got {:?}", other),
    }
}

#[test]
fn metadata_is_decoded_with_the_template() {
    let arena = vec![RawTemplate {
        priority: 77,
        availability: 1,
        annotations: vec!["first".to_string(), "second".to_string()],
        parent: Some("ns::Widget".to_string()),
        brief: Some("Does things.".to_string()),
        chunks: vec![chunk(CHUNK_TYPED_TEXT, "widget")],
    }];
    let s = CompletionString::from_raw(&arena, 0).unwrap();
    assert_eq!(s.get_priority(), 77);
    assert_eq!(s.get_availability(), Availability::Deprecated);
    assert_eq!(s.get_annotations(), vec!["first".to_string(), "second".to_string()]);
    assert_eq!(s.get_parent_name(), Some("ns::Widget".to_string()));
    assert_eq!(s.get_comment_brief(), Some("Does things.".to_string()));
}

#[test]
fn every_availability_code_decodes() {
    let expected = vec![
        (0, Availability::Available),
        (1, Availability::Deprecated),
        (2, Availability::NotAvailable),
        (3, Availability::NotAccessible),
    ];
    for (code, availability) in expected {
        let mut t = template(1, vec![]);
        t.availability = code;
        let arena = vec![t];
        assert_eq!(CompletionString::from_raw(&arena, 0).unwrap().get_availability(), availability);
    }
}

#[test]
fn context_mask_decodes_each_flag() {
    let mut raw = empty_raw_results();
    // Dot member access (32) + macro names (1 << 20).
    raw.context = 32 + 1048576;
    let results = CompletionResults::from_raw(raw).unwrap();
    let context = results.get_context().unwrap();
    assert!(context.dot_members);
    assert!(context.macro_names);
    assert!(!context.arrow_members);
    assert!(!context.all_types);
    assert!(!context.namespaces);
}

#[test]
fn zero_and_unknown_context_masks_decode_to_none() {
    let mut raw = empty_raw_results();
    raw.context = 0;
    assert!(CompletionResults::from_raw(raw).unwrap().get_context().is_none());
    let mut raw2 = empty_raw_results();
    raw2.context = 8388607;
    assert!(CompletionResults::from_raw(raw2).unwrap().get_context().is_none());
}

#[test]
fn container_kind_and_incompleteness_are_reported() {
    let mut raw = empty_raw_results();
    raw.container_kind = 4;
    raw.container_incomplete = true;
    let results = CompletionResults::from_raw(raw).unwrap();
    let (kind, incomplete) = results.get_container_kind().unwrap();
    assert_eq!(kind.code, 4);
    assert!(incomplete);
}

#[test]
fn selector_and_usr_are_passed_through() {
    let mut raw = empty_raw_results();
    raw.selector = Some("insertObject:at".to_string());
    raw.usr = Some("c:objc(cs)List".to_string());
    let results = CompletionResults::from_raw(raw).unwrap();
    assert_eq!(results.get_objc_selector(), Some("insertObject:at".to_string()));
    assert_eq!(results.get_usr().unwrap().0, "c:objc(cs)List");
}

#[test]
fn completer_toggles_options_independently() {
    let c = Completer::new("main.cpp".to_string(), 12, 8, OPTION_INCLUDE_BRIEF_COMMENTS);
    assert_eq!(c.file, "main.cpp");
    assert_eq!(c.line, 12);
    assert_eq!(c.column, 8);
    assert_eq!(c.flags, OPTION_INCLUDE_BRIEF_COMMENTS);
    assert!(c.unsaved.is_empty());
    let c = c.macros(true).code_patterns(true);
    assert_eq!(
        c.flags,
        OPTION_INCLUDE_MACROS | OPTION_INCLUDE_CODE_PATTERNS | OPTION_INCLUDE_BRIEF_COMMENTS
    );
    let c = c.briefs(false).code_patterns(false);
    assert_eq!(c.flags, OPTION_INCLUDE_MACROS);
}

#[test]
fn doubly_nested_optionals_decode() {
    // `at(` + optional(`, int n` + optional(`, bool grow`)) + `)`.
    let arena = vec![
        template(
            12,
            vec![
                chunk(CHUNK_TYPED_TEXT, "at"),
                chunk(CHUNK_LEFT_PAREN, ""),
                optional_chunk(1),
                chunk(CHUNK_RIGHT_PAREN, ""),
            ],
        ),
        template(1, vec![chunk(CHUNK_PLACEHOLDER, "int n"), optional_chunk(2)]),
        template(1, vec![chunk(CHUNK_PLACEHOLDER, "bool grow")]),
    ];
    let s = CompletionString::from_raw(&arena, 0).unwrap();
    let outer = s.get_chunks();
    let first_level = match &outer[2] {
        CompletionChunk::Optional(nested) => nested.get_chunks(),
        other => panic!("expected an optional chunk, got {:?}", other),
    };
    assert_eq!(first_level[0].get_text(), Some("int n".to_string()));
    let second_level = match &first_level[1] {
        CompletionChunk::Optional(nested) => nested.get_chunks(),
        other => panic!("expected an optional chunk, got {:?}", other),
    };
    assert_eq!(second_level.len(), 1);
    assert_eq!(second_level[0].get_text(), Some("bool grow".to_string()));
}

#[test]
fn typed_text_takes_the_first_typed_chunk() {
    let s = decode_single(
        1,
        vec![
            chunk(CHUNK_RESULT_TYPE, "void"),
            chunk(CHUNK_TYPED_TEXT, "first"),
            chunk(CHUNK_TYPED_TEXT, "second"),
        ],
    );
    assert_eq!(s.get_typed_text(), Some("first".to_string()));
}

#[test]
fn chunk_equality_ignores_nested_metadata() {
    let arena_a = vec![
        template(1, vec![optional_chunk(1)]),
        template(30, vec![chunk(CHUNK_PLACEHOLDER, "x")]),
    ];
    let arena_b = vec![
        template(2, vec![optional_chunk(1)]),
        template(40, vec![chunk(CHUNK_PLACEHOLDER, "x")]),
    ];
    let a = CompletionString::from_raw(&arena_a, 0).unwrap();
    let b = CompletionString::from_raw(&arena_b, 0).unwrap();
    // The nested templates carry different priorities but the same chunks.
    assert_eq!(a.get_chunks(), b.get_chunks());
    assert!(a == b);
}
