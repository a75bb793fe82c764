use std::io::Read;

use turbolift::distributed_platform::{DistributionError, ErrorKind};
use turbolift::order::path_lt;
use turbolift::extract_function::{
    bin_vector_to_literal_tokens, bundle_entries, canonical_listing, get_fn_item, get_fn_signature, get_result_type,
    contains_receiver, get_sanitized_file, make_compressed_proj_src, make_dummy_function,
    params_json_vec, render_item, to_param_types, to_path_params, to_untyped_params,
    unpack_path_params, EntryPoint, FnArg,
    Item, ItemFn, PatType, Signature, SourceEntry,
};

fn s(text: &str) -> String {
    text.to_string()
}

fn typed(pat: &str, ty: &str) -> FnArg {
    FnArg::Typed(PatType { pat: s(pat), ty: s(ty) })
}

fn square() -> ItemFn {
    ItemFn {
        prefix: s("pub"),
        sig: Signature {
            asyncness: false,
            ident: s("square"),
            generics: s(""),
            inputs: vec![typed("u", "u64")],
            output: Some(s("u64")),
            where_clause: s(""),
        },
        block: s("{ u * u }"),
    }
}

fn dir(components: &[&str]) -> SourceEntry {
    SourceEntry {
        path: components.iter().map(|c| c.to_string()).collect(),
        is_dir: true,
        data: Vec::new(),
    }
}

fn file(components: &[&str], data: &[u8]) -> SourceEntry {
    SourceEntry {
        path: components.iter().map(|c| c.to_string()).collect(),
        is_dir: false,
        data: data.to_vec(),
    }
}

fn unpack(bytes: &[u8]) -> Vec<(String, bool, Vec<u8>)> {
    let mut archive = tar::Archive::new(std::io::Cursor::new(bytes.to_vec()));
    let mut out = Vec::new();
    for entry in archive.entries().unwrap() {
        let mut entry = entry.unwrap();
        let path = entry.path().unwrap().to_string_lossy().into_owned();
        let is_dir = entry.header().entry_type().is_dir();
        let mut data = Vec::new();
        entry.read_to_end(&mut data).unwrap();
        assert_eq!(entry.header().mtime().unwrap(), 0);
        out.push((path, is_dir, data));
    }
    out
}

#[test]
fn parameters_are_taken_in_declaration_order() {
    let params = vec![typed("a", "u64"), typed("(b, c)", "(bool, String)")];
    assert!(!contains_receiver(&params));
    assert_eq!(to_untyped_params(&params), vec![s("a"), s("(b, c)")]);
    assert_eq!(to_param_types(&params), vec![s("u64"), s("(bool, String)")]);
    assert!(to_untyped_params(&Vec::new()).is_empty());
    assert!(to_param_types(&Vec::new()).is_empty());
}

#[test]
fn a_receiver_is_found_among_the_parameters() {
    let params = vec![typed("a", "u64"), FnArg::Receiver(s("&self"))];
    assert!(contains_receiver(&params));
    assert!(contains_receiver(&vec![FnArg::Receiver(s("self"))]));
    assert!(!contains_receiver(&Vec::new()));
    assert_eq!(DistributionError::Receiver.kind(), ErrorKind::Build);
}

#[test]
fn path_params_are_braced_and_joined() {
    assert_eq!(to_path_params(&vec![s("a"), s("b"), s("c")]), "{a}/{b}/{c}");
    assert_eq!(to_path_params(&vec![s("a")]), "{a}");
    assert_eq!(to_path_params(&Vec::new()), "");
}

#[test]
fn params_are_serialized_into_a_vector() {
    assert_eq!(
        params_json_vec(&vec![s("a"), s("b")]),
        "vec![turbolift::serde_json::to_string(&a).unwrap(), turbolift::serde_json::to_string(&b).unwrap()]"
    );
    assert_eq!(params_json_vec(&Vec::new()), "vec![]");
}

#[test]
fn path_fields_are_numbered() {
    assert_eq!(unpack_path_params(&vec![s("a"), s("b"), s("c")]), "path.0, path.1, path.2");
    assert_eq!(unpack_path_params(&Vec::new()), "");
    let eleven: Vec<String> = (0..11).map(|i| format!("p{}", i)).collect();
    assert!(unpack_path_params(&eleven).ends_with("path.9, path.10"));
}

#[test]
fn absent_result_type_is_unit() {
    assert_eq!(get_result_type(&None), "()");
    assert_eq!(get_result_type(&Some(s("Vec<u8>"))), "Vec<u8>");
}

#[test]
fn bytes_become_a_vector_literal() {
    assert_eq!(bin_vector_to_literal_tokens(&vec![1, 2, 255]), "vec![1,2,255]");
    assert_eq!(bin_vector_to_literal_tokens(&vec![0]), "vec![0]");
    assert_eq!(bin_vector_to_literal_tokens(&Vec::new()), "vec![]");
}

#[test]
fn only_a_function_is_a_function_item() {
    assert_eq!(get_fn_item(Item::Fn(square())).unwrap().sig.ident, "square");
    assert_eq!(get_fn_signature(Item::Fn(square())).unwrap().inputs.len(), 1);
    assert!(matches!(
        get_fn_item(Item::Other(s("struct S;"))),
        Err(DistributionError::BuildStep(_))
    ));
    assert!(matches!(
        get_fn_signature(Item::Other(s("struct S;"))),
        Err(DistributionError::BuildStep(_))
    ));
}

#[test]
fn forwarder_calls_the_moved_function() {
    let dummy = make_dummy_function(&square(), "square_raw", &vec![s("u")]);
    assert!(dummy.sig.asyncness);
    assert_eq!(dummy.sig.ident, "square");
    assert_eq!(dummy.sig.output.as_deref(), Some("turbolift::DistributionResult<u64>"));
    assert_eq!(dummy.block, "{ return Ok(square_raw(u)); }");
    assert_eq!(
        render_item(&dummy),
        "pub async fn square(u: u64) -> turbolift::DistributionResult<u64>  { return Ok(square_raw(u)); }"
    );
    let mut unit = square();
    unit.sig.output = None;
    unit.sig.inputs = vec![typed("a", "u8"), typed("b", "u8")];
    let dummy = make_dummy_function(&unit, "f_raw", &vec![s("a"), s("b")]);
    assert_eq!(dummy.sig.output.as_deref(), Some("turbolift::DistributionResult<()>"));
    assert_eq!(dummy.block, "{ return Ok(f_raw(a, b)); }");
    let ping = ItemFn {
        prefix: s(""),
        sig: Signature {
            asyncness: false,
            ident: s("ping"),
            generics: s(""),
            inputs: vec![typed("a", "u8")],
            output: None,
            where_clause: s(""),
        },
        block: s("{}"),
    };
    assert_eq!(
        render_item(&make_dummy_function(&ping, "ping_raw", &vec![s("a")])),
        " async fn ping(a: u8) -> turbolift::DistributionResult<()>  { return Ok(ping_raw(a)); }"
    );
}

#[test]
fn function_is_rendered_as_source() {
    assert_eq!(render_item(&square()), "pub fn square(u: u64) -> u64  { u * u }");
    let generic = ItemFn {
        prefix: s("#[inline]"),
        sig: Signature {
            asyncness: true,
            ident: s("show"),
            generics: s("<T>"),
            inputs: vec![typed("t", "T"), typed("n", "usize")],
            output: None,
            where_clause: s("where T: std::fmt::Debug"),
        },
        block: s("{}"),
    };
    assert_eq!(
        render_item(&generic),
        "#[inline] async fn show<T>(t: T, n: usize) where T: std::fmt::Debug {}"
    );
}

const SOURCE: &str = "use std::fmt;\n\n#[on(LOCAL)]\nfn square(u: u64) -> u64 {\n    u * u\n}\n\nfn helper() {}\n\nfn main() {\n    helper();\n}\n";

fn at(line: usize, column: usize) -> Option<EntryPoint> {
    Some(EntryPoint { line, column })
}

#[test]
fn sanitized_file_has_neither_the_function_nor_the_entry_point() {
    let text = get_sanitized_file(SOURCE, 3, 6, at(10, 3)).unwrap();
    assert_eq!(
        text,
        "use std::fmt;\n\n\nfn helper() {}\n\nfn _super_main() {\n    helper();\n}"
    );
}

#[test]
fn sanitized_file_keeps_every_other_line() {
    assert_eq!(get_sanitized_file("a\nb\nc\nd\ne", 3, 4, None).unwrap(), "a\nb\ne");
    assert_eq!(get_sanitized_file("a\nb\nc", 1, 1, None).unwrap(), "b\nc");
    assert_eq!(get_sanitized_file("a\nb\nc", 3, 3, None).unwrap(), "a\nb");
    assert_eq!(get_sanitized_file("a\nb\nc", 1, 3, None).unwrap(), "");
    assert_eq!(
        get_sanitized_file("struct Other;\nfn marked() {}", 2, 2, None).unwrap(),
        "struct Other;"
    );
}

#[test]
fn only_the_entry_point_is_renamed() {
    let source = "// fn main() is below\nconst S: &str = \"fn main()\";\nfn marked() {}\npub fn main() { main_loop(); }\nfn main_loop() {}";
    assert_eq!(
        get_sanitized_file(source, 3, 3, at(4, 7)).unwrap(),
        "// fn main() is below\nconst S: &str = \"fn main()\";\npub fn _super_main() { main_loop(); }\nfn main_loop() {}"
    );
    assert_eq!(
        get_sanitized_file(source, 3, 3, None).unwrap(),
        "// fn main() is below\nconst S: &str = \"fn main()\";\npub fn main() { main_loop(); }\nfn main_loop() {}"
    );
    assert_eq!(get_sanitized_file("fn main() {}\nfn f() {}", 1, 2, at(1, 3)).unwrap(), "");
}

#[test]
fn span_outside_the_file_is_refused() {
    for (first, last) in [(2, 4), (5, 2), (0, 1), (0, 0), (3, 2), (4, 4)] {
        assert!(matches!(
            get_sanitized_file("a\nb\nc", first, last, None),
            Err(DistributionError::SpanOutOfRange)
        ));
    }
    assert!(matches!(
        get_sanitized_file("", 1, 1, None),
        Err(DistributionError::SpanOutOfRange)
    ));
}

#[test]
fn an_entry_point_that_is_not_there_is_refused() {
    let source = "fn f() {}\nfn main() {}\n";
    for (line, column) in [(0, 3), (3, 3), (2, 2), (2, 9), (2, 13), (1, 3)] {
        match get_sanitized_file(source, 1, 1, at(line, column)) {
            Err(e) => {
                assert!(matches!(e, DistributionError::EntryPoint));
                assert_eq!(e.kind(), ErrorKind::Build);
            }
            Ok(_) => panic!("an entry point was found at {:?}", (line, column)),
        }
    }
    assert!(matches!(
        get_sanitized_file(source, 3, 3, at(9, 9)),
        Err(DistributionError::SpanOutOfRange)
    ));
}

fn project() -> Vec<SourceEntry> {
    vec![
        file(&["Cargo.toml"], b"[package]\nname = \"square_turbolift\"\n"),
        dir(&["src"]),
        dir(&["target"]),
        dir(&[".git"]),
        dir(&[".local_deps"]),
        file(&["src", "main.rs"], b"fn main() {}\n"),
        file(&["target", "debug", "square"], b"\x7fELF"),
        file(&[".git", "HEAD"], b"ref"),
        dir(&[".local_deps", "helper"]),
        dir(&[".local_deps", "helper", ".turbolift"]),
        file(&[".local_deps", "helper", "lib.rs"], b""),
        file(&[".local_deps", "helper", ".turbolift", "x"], b"x"),
    ]
}

#[test]
fn bundle_holds_the_sources_below_one_directory() {
    let bytes = make_compressed_proj_src("square", &project()).unwrap();
    assert_eq!(
        unpack(&bytes),
        vec![
            (s("square"), true, Vec::new()),
            (s("square/.local_deps"), true, Vec::new()),
            (s("square/.local_deps/helper"), true, Vec::new()),
            (s("square/.local_deps/helper/lib.rs"), false, Vec::new()),
            (s("square/Cargo.toml"), false, b"[package]\nname = \"square_turbolift\"\n".to_vec()),
            (s("square/src"), true, Vec::new()),
            (s("square/src/main.rs"), false, b"fn main() {}\n".to_vec()),
        ]
    );
}

#[test]
fn bundle_entries_are_the_plan_of_the_bundle() {
    let items = bundle_entries("square", &project()).unwrap();
    let got: Vec<(&str, u8, u32, usize)> = items
        .iter()
        .map(|i| (i.path.as_str(), i.kind, i.mode, i.data.len()))
        .collect();
    assert_eq!(
        got,
        vec![
            ("square", b'5', 0o755, 0),
            ("square/.local_deps", b'5', 0o755, 0),
            ("square/.local_deps/helper", b'5', 0o755, 0),
            ("square/.local_deps/helper/lib.rs", b'0', 0o644, 0),
            ("square/Cargo.toml", b'0', 0o644, 36),
            ("square/src", b'5', 0o755, 0),
            ("square/src/main.rs", b'0', 0o644, 13),
        ]
    );
}

#[test]
fn the_bundle_does_not_depend_on_the_order_of_the_listing() {
    let expected = make_compressed_proj_src("square", &project()).unwrap();
    let mut reversed = project();
    reversed.reverse();
    assert_eq!(make_compressed_proj_src("square", &reversed).unwrap(), expected);
    let mut rotated = project();
    rotated.rotate_left(5);
    assert_eq!(make_compressed_proj_src("square", &rotated).unwrap(), expected);
    let listing = canonical_listing(&rotated);
    let paths: Vec<String> = listing.iter().map(|e| e.path.join("/")).collect();
    let mut sorted = paths.clone();
    sorted.sort();
    assert_eq!(paths.len(), 12);
    assert_eq!(paths[0], ".git");
    assert_eq!(paths[11], "target/debug/square");
    for pair in listing.windows(2) {
        assert!(pair[0].path <= pair[1].path);
    }
}

#[test]
fn paths_are_ordered_component_by_component() {
    let p = |c: &[&str]| c.iter().map(|x| x.to_string()).collect::<Vec<String>>();
    let cases = [
        (p(&["a"]), p(&["a", "b"]), true),
        (p(&["a", "b"]), p(&["a"]), false),
        (p(&["a", "b"]), p(&["a-b"]), true),
        (p(&["a-b"]), p(&["a", "b"]), false),
        (p(&["a"]), p(&["a"]), false),
        (p(&[]), p(&["a"]), true),
        (p(&["B"]), p(&["a"]), true),
        (p(&["é"]), p(&["z"]), false),
        (p(&["src", "lib.rs"]), p(&["src", "main.rs"]), true),
    ];
    for (a, b, expected) in cases {
        assert_eq!(path_lt(&a, &b), expected, "{:?} before {:?}", a, b);
        assert_eq!(a < b, expected);
    }
}

#[test]
fn packaging_twice_gives_the_same_bytes() {
    let first = make_compressed_proj_src("square", &project()).unwrap();
    let second = make_compressed_proj_src("square", &project()).unwrap();
    assert_eq!(first, second);
    assert_eq!(first.len() % 512, 0);
}

#[test]
fn unpacking_and_packing_again_gives_the_same_tree() {
    let bytes = make_compressed_proj_src("square", &project()).unwrap();
    let tree = unpack(&bytes);
    let entries: Vec<SourceEntry> = tree
        .iter()
        .skip(1)
        .map(|(path, is_dir, data)| SourceEntry {
            path: path.split('/').skip(1).map(|c| c.to_string()).collect(),
            is_dir: *is_dir,
            data: data.clone(),
        })
        .collect();
    let again = make_compressed_proj_src("square", &entries).unwrap();
    assert_eq!(unpack(&again), tree);
    assert_eq!(again, bytes);
}

#[test]
fn long_paths_are_taken() {
    let long = "d".repeat(90);
    let entries = vec![dir(&[&long]), file(&[&long, &long, "f.rs"], b"x")];
    let bytes = make_compressed_proj_src("p", &entries).unwrap();
    let tree = unpack(&bytes);
    assert_eq!(tree[2].0, format!("p/{}/{}/f.rs", long, long));
}

#[test]
fn empty_project_is_its_top_directory() {
    let bytes = make_compressed_proj_src("square", &Vec::new()).unwrap();
    assert_eq!(unpack(&bytes), vec![(s("square"), true, Vec::new())]);
}

#[test]
fn names_that_are_not_portable_are_refused() {
    assert!(make_compressed_proj_src("c:", &Vec::new()).is_err());
    for bad in ["", ".", "..", "a/b", "a\\b", "nul\0"] {
        let entries = vec![file(&["src", bad], b"")];
        match make_compressed_proj_src("square", &entries) {
            Err(e) => {
                assert!(matches!(&e, DistributionError::EntryName(n) if n == bad));
                assert_eq!(e.kind(), ErrorKind::Build);
            }
            Ok(_) => panic!("{:?} was taken", bad),
        }
        assert!(make_compressed_proj_src(bad, &Vec::new()).is_err());
    }
    let no_path = vec![SourceEntry { path: Vec::new(), is_dir: true, data: Vec::new() }];
    assert!(matches!(
        make_compressed_proj_src("square", &no_path),
        Err(DistributionError::EntryName(_))
    ));
}

#[test]
fn a_name_with_a_colon_is_bundled_below_the_top() {
    let entries = vec![file(&["notes: draft.txt"], b"x"), dir(&["a:b"]), file(&["a:b", "c"], b"y")];
    let bytes = make_compressed_proj_src("square", &entries).unwrap();
    assert_eq!(
        unpack(&bytes),
        vec![
            (s("square"), true, Vec::new()),
            (s("square/a:b"), true, Vec::new()),
            (s("square/a:b/c"), false, b"y".to_vec()),
            (s("square/notes: draft.txt"), false, b"x".to_vec()),
        ]
    );
}

#[test]
fn ignored_entries_may_have_any_name() {
    let entries = vec![file(&["target", "..", "a:b"], b"")];
    let bytes = make_compressed_proj_src("square", &entries).unwrap();
    assert_eq!(unpack(&bytes).len(), 1);
}
