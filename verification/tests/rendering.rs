use source_loc::SourceLoc;

#[test]
fn it_can_debug() {
    let loc = SourceLoc { file: "src/source_loc.rs", line: 30, column: 19 };
    assert_eq!("src/source_loc.rs:30:19", &format!("{:?}", loc));
}

#[test]
fn it_can_display() {
    let loc = SourceLoc { file: "src/source_loc.rs", line: 36, column: 19 };
    assert_eq!("src/source_loc.rs:36:19", &format!("{}", loc));
}

#[test]
fn location_in_lib_rs_renders_as_documented() {
    let loc = SourceLoc { file: "src/lib.rs", line: 6, column: 11 };
    assert_eq!("src/lib.rs", loc.file);
    assert_eq!(6, loc.line);
    assert_eq!(11, loc.column);
    assert_eq!("src/lib.rs:6:11", &loc.to_string());
    assert_eq!("src/lib.rs:6:11", &format!("{}", loc));
}

#[test]
fn strings_are_built_without_a_formatter() {
    let loc = SourceLoc { file: "src/thing", line: 6, column: 11 };
    assert_eq!("src/thing:6:11", loc.debug_string());
    assert_eq!("src/thing:6:11", loc.display_string());
}

#[test]
fn debug_and_display_write_the_same_text() {
    let locs = vec![
        SourceLoc { file: "src/lib.rs", line: 6, column: 11 },
        SourceLoc { file: "", line: 0, column: 0 },
        SourceLoc { file: "a:b", line: 10, column: 100 },
        SourceLoc { file: "src/\u{fc}ber/\u{1f600}.rs", line: 4294967295, column: 1 },
    ];
    for loc in locs {
        assert_eq!(format!("{:?}", loc), format!("{}", loc));
        assert_eq!(loc.debug_string(), loc.display_string());
        assert_eq!(format!("{:?}", loc), loc.debug_string());
        assert_eq!(format!("{}", loc), loc.display_string());
        assert_eq!(format!("{}", loc).as_bytes(), format!("{:?}", loc).as_bytes());
    }
}

#[test]
fn text_has_no_padding_and_no_newline() {
    let loc = SourceLoc { file: "main.rs", line: 7, column: 3 };
    let text = format!("{}", loc);
    assert_eq!("main.rs:7:3", text);
    assert_eq!(11, text.len());
    assert!(!text.ends_with('\n'));
    assert!(!text.starts_with(' '));
}

#[test]
fn numbers_are_written_without_leading_zeros() {
    let loc = SourceLoc { file: "f", line: 100, column: 1000000000 };
    assert_eq!("f:100:1000000000", format!("{}", loc));
    let loc = SourceLoc { file: "f", line: 9, column: 10 };
    assert_eq!("f:9:10", format!("{}", loc));
    let loc = SourceLoc { file: "f", line: 90, column: 909 };
    assert_eq!("f:90:909", format!("{:?}", loc));
}

#[test]
fn largest_and_smallest_numbers_render() {
    let loc = SourceLoc { file: "f", line: u32::MAX, column: u32::MAX };
    assert_eq!("f:4294967295:4294967295", format!("{}", loc));
    let loc = SourceLoc { file: "f", line: 0, column: 0 };
    assert_eq!("f:0:0", format!("{:?}", loc));
    let loc = SourceLoc { file: "f", line: 1, column: 1 };
    assert_eq!("f:1:1", format!("{}", loc));
}

#[test]
fn file_is_written_as_it_is() {
    let loc = SourceLoc { file: "C:\\src\\main.rs", line: 3, column: 4 };
    assert_eq!("C:\\src\\main.rs:3:4", format!("{}", loc));
    let loc = SourceLoc { file: "a:1", line: 2, column: 3 };
    assert_eq!("a:1:2:3", format!("{:?}", loc));
    let loc = SourceLoc { file: "with space \"quoted\"", line: 2, column: 3 };
    assert_eq!("with space \"quoted\":2:3", format!("{:?}", loc));
    let loc = SourceLoc { file: "", line: 2, column: 3 };
    assert_eq!(":2:3", format!("{}", loc));
}

#[test]
fn a_colon_in_the_file_is_not_escaped() {
    let a = SourceLoc { file: "a:1", line: 2, column: 3 };
    let b = SourceLoc { file: "a", line: 1, column: 2 };
    assert_eq!("a:1:2:3", format!("{}", a));
    assert_eq!("a:1:2", format!("{}", b));
    assert!(format!("{}", a).starts_with(&format!("{}", b)));
}

#[test]
fn different_locations_have_different_texts() {
    let locs = vec![
        SourceLoc { file: "a", line: 1, column: 2 },
        SourceLoc { file: "a", line: 1, column: 21 },
        SourceLoc { file: "a", line: 12, column: 1 },
        SourceLoc { file: "a", line: 2, column: 1 },
        SourceLoc { file: "a:1", line: 2, column: 1 },
        SourceLoc { file: "a:1", line: 1, column: 2 },
        SourceLoc { file: "a:", line: 1, column: 2 },
        SourceLoc { file: "", line: 1, column: 2 },
        SourceLoc { file: ":", line: 1, column: 2 },
        SourceLoc { file: "1", line: 1, column: 2 },
    ];
    for (i, x) in locs.iter().enumerate() {
        for (j, y) in locs.iter().enumerate() {
            assert_eq!(i == j, x == y);
            assert_eq!(i == j, format!("{}", x) == format!("{}", y));
        }
    }
}

#[test]
fn text_agrees_with_the_standard_integer_format() {
    let numbers: Vec<u32> = vec![0, 1, 9, 10, 11, 99, 100, 101, 999, 1000, 65535, 65536, 123456789, 4294967294, 4294967295];
    for n in numbers {
        let loc = SourceLoc { file: "x.rs", line: n, column: n };
        assert_eq!(format!("x.rs:{}:{}", n, n), format!("{}", loc));
    }
}

#[test]
fn the_text_stands_where_the_caller_puts_it() {
    let loc = SourceLoc { file: "a", line: 1, column: 2 };
    assert_eq!("[a:1:2]", format!("[{}]", loc));
    assert_eq!("a:1:2 a:1:2", format!("{} {:?}", loc, loc));
}

#[test]
fn width_and_alternate_form_do_not_change_the_text() {
    let loc = SourceLoc { file: "a", line: 1, column: 2 };
    assert_eq!("a:1:2", format!("{:>12}", loc));
    assert_eq!("a:1:2", format!("{:<12?}", loc));
    assert_eq!("a:1:2", format!("{:#?}", loc));
}
