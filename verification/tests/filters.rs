use chrono::{Local, TimeZone, Utc};
use frustlib::filetype_filter::FiletypeFilter;
use frustlib::filter::{Attribute, CompOp, Entry, FileKind, Filter, FilterError, Metadata};
use frustlib::filter_tree::{create_filter, FilterTuple, Predicate};
use frustlib::gid_filter::GidFilter;
use frustlib::name_filter::{EqualBasenameFilter, EqualNameFilter};
use frustlib::regex_filter::RegexFilter;
use frustlib::size_filter::{parse_size, SizeFilter};
use frustlib::text::parse_unsigned;
use frustlib::clock::unix_now;
use frustlib::time_filter::{
    parse_abs_date, parse_abs_datetime, parse_abs_time, parse_date, parse_relative, parse_time,
    pick_local_day, today_at, RelativeTime, TimeFilter,
};
use frustlib::uid_filter::UidFilter;

fn metadata() -> Metadata {
    Metadata {
        kind: FileKind::File,
        len: 0,
        modified: Some(0),
        created: Some(0),
        accessed: Some(0),
        inode: 1,
        uid: 0,
        gid: 0,
    }
}

fn named(path: &str, basename: &str) -> Entry {
    Entry {
        path: Some(String::from(path)),
        basename: Some(String::from(basename)),
        metadata: Some(metadata()),
    }
}

fn sized(len: u64) -> Entry {
    Entry { path: None, basename: None, metadata: Some(Metadata { len, ..metadata() }) }
}

fn of_kind(kind: FileKind) -> Entry {
    Entry { path: None, basename: None, metadata: Some(Metadata { kind, ..metadata() }) }
}

fn owned(uid: u32, gid: u32) -> Entry {
    Entry { path: None, basename: None, metadata: Some(Metadata { uid, gid, ..metadata() }) }
}

fn timed(modified: Option<u64>, created: Option<u64>, accessed: Option<u64>) -> Entry {
    Entry {
        path: None,
        basename: None,
        metadata: Some(Metadata { modified, created, accessed, ..metadata() }),
    }
}

fn unreadable() -> Entry {
    Entry { path: Some(String::from("/tmp/x")), basename: Some(String::from("x")), metadata: None }
}

fn tuple(attribute: Attribute, operator: CompOp, parameter: &str) -> FilterTuple {
    FilterTuple::new(attribute, operator, String::from(parameter))
}

fn failure(attribute: Attribute, operator: CompOp, parameter: &str) -> FilterError {
    match create_filter(tuple(attribute, operator, parameter)) {
        Ok(_) => panic!("a filter was built"),
        Err(e) => e,
    }
}

fn built(attribute: Attribute, operator: CompOp, parameter: &str) -> Predicate {
    match create_filter(tuple(attribute, operator, parameter)) {
        Ok(predicate) => predicate,
        Err(e) => panic!("no filter was built: {:?}", e),
    }
}

#[test]
fn size_literal_scales_by_powers_of_1024() {
    assert_eq!(parse_size("10M"), Some(10 * 1024 * 1024));
    assert_eq!(parse_size("10M"), Some(10485760));
    assert_eq!(parse_size("7b"), Some(7));
    assert_eq!(parse_size("1k"), Some(1024));
    assert_eq!(parse_size("1G"), Some(1073741824));
    assert_eq!(parse_size("1T"), Some(1099511627776));
    assert_eq!(parse_size("0T"), Some(0));
}

#[test]
fn size_filter_of_ten_mega_has_threshold_10485760() {
    let filter = SizeFilter::new(CompOp::Equal, "10M").unwrap();
    assert_eq!(filter.threshold(), 10485760);
    assert!(filter.test(&sized(10485760)));
    assert!(!filter.test(&sized(10485759)));
    assert!(!filter.test(&sized(10485761)));
}

#[test]
fn size_literal_rounds_to_the_nearest_byte() {
    assert_eq!(parse_size("1.5k"), Some(1536));
    assert_eq!(parse_size("0.1k"), Some(102));
    assert_eq!(parse_size("1.5b"), Some(2));
    assert_eq!(parse_size("0.5b"), Some(1));
    assert_eq!(parse_size("0.4b"), Some(0));
    assert_eq!(parse_size("0.49999999999999999999999999b"), Some(0));
    assert_eq!(parse_size("2.b"), Some(2));
    assert_eq!(parse_size("0.0009765625k"), Some(1));
    assert_eq!(parse_size("0.00048828125k"), Some(1));
    assert_eq!(parse_size("0.00048828124k"), Some(0));
    assert_eq!(parse_size("3.14159M"), Some(3294196));
}

#[test]
fn size_literal_is_held_to_64_bits() {
    assert_eq!(parse_size("-5k"), Some(0));
    assert_eq!(parse_size("-0.7b"), Some(0));
    assert_eq!(parse_size("18446744073709551615b"), Some(u64::MAX));
    assert_eq!(parse_size("18446744073709551616b"), Some(u64::MAX));
    assert_eq!(parse_size("99999999999999999999999999T"), Some(u64::MAX));
    assert_eq!(parse_size("16777216T"), Some(u64::MAX));
    assert_eq!(parse_size("16777215T"), Some(16777215 * 1099511627776));
}

#[test]
fn size_literal_must_be_a_number_and_a_unit() {
    assert_eq!(parse_size(""), None);
    assert_eq!(parse_size("10"), None);
    assert_eq!(parse_size("M"), None);
    assert_eq!(parse_size("10X"), None);
    assert_eq!(parse_size("10m"), None);
    assert_eq!(parse_size("10K"), None);
    assert_eq!(parse_size(".5k"), None);
    assert_eq!(parse_size("1.5.2k"), None);
    assert_eq!(parse_size("10Mb"), None);
    assert_eq!(parse_size(" 10M"), None);
    assert_eq!(parse_size("+10M"), None);
    assert_eq!(parse_size("-k"), None);
}

#[test]
fn size_filter_compares_by_its_operator() {
    let below = SizeFilter::new(CompOp::Lower, "1k").unwrap();
    assert!(below.test(&sized(1023)));
    assert!(!below.test(&sized(1024)));
    let at_most = SizeFilter::new(CompOp::LowerEqual, "1k").unwrap();
    assert!(at_most.test(&sized(1024)));
    assert!(!at_most.test(&sized(1025)));
    let at_least = SizeFilter::new(CompOp::GreaterEqual, "1k").unwrap();
    assert!(at_least.test(&sized(1024)));
    assert!(!at_least.test(&sized(1023)));
    let above = SizeFilter::new(CompOp::Greater, "1k").unwrap();
    assert!(above.test(&sized(1025)));
    assert!(!above.test(&sized(1024)));
    assert!(!above.test(&unreadable()));
}

#[test]
fn size_filter_rejects_operators_that_do_not_order() {
    for operator in [CompOp::Unequal, CompOp::Like, CompOp::Unlike] {
        assert_eq!(
            SizeFilter::new(operator, "1k").err(),
            Some(FilterError::UnsupportedOperatorError { attribute: Attribute::Size, operator })
        );
    }
    assert_eq!(
        SizeFilter::new(CompOp::Equal, "big").err(),
        Some(FilterError::InvalidSizeLiteralError { parameter: String::from("big") })
    );
    assert_eq!(
        SizeFilter::new(CompOp::Like, "big").err(),
        Some(FilterError::UnsupportedOperatorError {
            attribute: Attribute::Size,
            operator: CompOp::Like
        })
    );
}

#[test]
fn uid_like_is_an_unsupported_operator() {
    assert_eq!(
        failure(Attribute::Uid, CompOp::Like, "0"),
        FilterError::UnsupportedOperatorError { attribute: Attribute::Uid, operator: CompOp::Like }
    );
}

#[test]
fn name_equal_matches_only_the_exact_path() {
    let filter = built(Attribute::Name, CompOp::Equal, "/tmp/x");
    assert!(matches!(filter, Predicate::EqualName(_)));
    assert!(filter.test(&named("/tmp/x", "x")));
    assert!(!filter.test(&named("/tmp/xy", "xy")));
    assert!(!filter.test(&named("/tmp/", "tmp")));
    assert!(!filter.test(&named("tmp/x", "x")));
    assert!(!filter.test(&named("/tmp/X", "X")));
    assert!(!filter.test(&Entry { path: None, basename: None, metadata: None }));
}

#[test]
fn legality_table_is_checked_when_a_filter_is_built() {
    let all = [
        CompOp::Lower,
        CompOp::LowerEqual,
        CompOp::Equal,
        CompOp::Unequal,
        CompOp::GreaterEqual,
        CompOp::Greater,
        CompOp::Like,
        CompOp::Unlike,
    ];
    let ordering =
        [CompOp::Lower, CompOp::LowerEqual, CompOp::Equal, CompOp::GreaterEqual, CompOp::Greater];
    let textual = [CompOp::Equal, CompOp::Like, CompOp::Unlike];
    let identity = [CompOp::Equal, CompOp::Unequal];
    for operator in all {
        for attribute in [Attribute::Name, Attribute::Basename] {
            let r = create_filter(tuple(attribute, operator, "x"));
            assert_eq!(r.is_ok(), textual.contains(&operator));
            if let Err(e) = r {
                assert_eq!(e, FilterError::UnsupportedOperatorError { attribute, operator });
            }
        }
        let r = create_filter(tuple(Attribute::Size, operator, "1k"));
        assert_eq!(r.is_ok(), ordering.contains(&operator));
        for attribute in [Attribute::Mtime, Attribute::Ctime, Attribute::Atime] {
            let r = create_filter(tuple(attribute, operator, "5D"));
            assert_eq!(r.is_ok(), ordering.contains(&operator));
            if let Err(e) = r {
                assert_eq!(e, FilterError::UnsupportedOperatorError { attribute, operator });
            }
        }
        assert!(create_filter(tuple(Attribute::Filetype, operator, "d")).is_ok());
        for attribute in [Attribute::Uid, Attribute::Gid] {
            let r = create_filter(tuple(attribute, operator, "0"));
            assert_eq!(r.is_ok(), identity.contains(&operator));
            if let Err(e) = r {
                assert_eq!(e, FilterError::UnsupportedOperatorError { attribute, operator });
            }
        }
        for attribute in [Attribute::Mimetype, Attribute::Inode] {
            assert_eq!(
                failure(attribute, operator, "x"),
                FilterError::UnimplementedAttributeError { attribute }
            );
        }
    }
}

#[test]
fn each_attribute_gives_its_kind_of_predicate() {
    assert!(matches!(built(Attribute::Basename, CompOp::Equal, "x"), Predicate::EqualBasename(_)));
    assert!(matches!(built(Attribute::Name, CompOp::Like, "x"), Predicate::Regex(_)));
    assert!(matches!(built(Attribute::Basename, CompOp::Unlike, "x"), Predicate::Regex(_)));
    assert!(matches!(built(Attribute::Size, CompOp::Lower, "1k"), Predicate::Size(_)));
    assert!(matches!(built(Attribute::Mtime, CompOp::Lower, "1D"), Predicate::Time(_)));
    assert!(matches!(built(Attribute::Filetype, CompOp::Equal, "f"), Predicate::Filetype(_)));
    assert!(matches!(built(Attribute::Uid, CompOp::Equal, "7"), Predicate::Uid(_)));
    assert!(matches!(built(Attribute::Gid, CompOp::Unequal, "7"), Predicate::Gid(_)));
}

#[test]
fn malformed_parameters_have_their_errors() {
    assert_eq!(
        failure(Attribute::Name, CompOp::Like, "foo(bar"),
        FilterError::InvalidRegexError { parameter: String::from("foo(bar") }
    );
    assert_eq!(
        failure(Attribute::Size, CompOp::Equal, "10"),
        FilterError::InvalidSizeLiteralError { parameter: String::from("10") }
    );
    assert_eq!(
        failure(Attribute::Mtime, CompOp::Equal, "yesterday"),
        FilterError::InvalidTimeLiteralError { parameter: String::from("yesterday") }
    );
    assert_eq!(
        failure(Attribute::Filetype, CompOp::Equal, "socket"),
        FilterError::InvalidFiletypeError { parameter: String::from("socket") }
    );
    for (attribute, text) in
        [(Attribute::Uid, "root"), (Attribute::Gid, "4294967296"), (Attribute::Gid, "-1")]
    {
        assert_eq!(
            failure(attribute, CompOp::Equal, text),
            FilterError::InvalidIdError { parameter: String::from(text) }
        );
    }
}

#[test]
fn equal_name_and_basename_compare_text() {
    let name = EqualNameFilter::new("/a/b");
    assert!(name.test(&named("/a/b", "b")));
    assert!(!name.test(&named("/a/c", "b")));
    let basename = EqualBasenameFilter::new("b");
    assert!(basename.test(&named("/a/b", "b")));
    assert!(!basename.test(&named("/a/b", "c")));
    assert!(!basename.test(&Entry { path: Some(String::from("b")), basename: None, metadata: None }));
    assert!(!name.test(&Entry { path: None, basename: Some(String::from("/a/b")), metadata: None }));
}

#[test]
fn regex_filter_matches_anywhere_and_negates() {
    let like = RegexFilter::new(&tuple(Attribute::Name, CompOp::Like, r"\.rs$")).unwrap();
    assert!(like.test(&named("/src/lib.rs", "lib.rs")));
    assert!(!like.test(&named("/src/lib.rs.bak", "lib.rs.bak")));
    let unlike = RegexFilter::new(&tuple(Attribute::Name, CompOp::Unlike, r"\.rs$")).unwrap();
    assert!(!unlike.test(&named("/src/lib.rs", "lib.rs")));
    assert!(unlike.test(&named("/src/lib.rs.bak", "lib.rs.bak")));
    let base = RegexFilter::new(&tuple(Attribute::Basename, CompOp::Like, "^src")).unwrap();
    assert!(!base.test(&named("src/lib.rs", "lib.rs")));
    assert!(base.test(&named("/a/src", "src")));
    let inner = RegexFilter::new(&tuple(Attribute::Name, CompOp::Like, "b+")).unwrap();
    assert!(inner.test(&named("aabbcc", "aabbcc")));
    assert!(!inner.test(&named("aacc", "aacc")));
}

#[test]
fn regex_filter_is_false_without_a_name() {
    let like = RegexFilter::new(&tuple(Attribute::Name, CompOp::Like, "x")).unwrap();
    let unlike = RegexFilter::new(&tuple(Attribute::Name, CompOp::Unlike, "x")).unwrap();
    let nameless = Entry { path: None, basename: None, metadata: None };
    assert!(!like.test(&nameless));
    assert!(!unlike.test(&nameless));
}

#[test]
fn regex_filter_rejects_what_is_no_pattern_on_a_name() {
    assert_eq!(
        RegexFilter::new(&tuple(Attribute::Name, CompOp::Like, "(")).err(),
        Some(FilterError::InvalidRegexError { parameter: String::from("(") })
    );
    assert_eq!(
        RegexFilter::new(&tuple(Attribute::Name, CompOp::Like, r"\w{1000}")).err(),
        Some(FilterError::InvalidRegexError { parameter: String::from(r"\w{1000}") })
    );
    assert_eq!(
        RegexFilter::new(&tuple(Attribute::Size, CompOp::Like, "x")).err(),
        Some(FilterError::UnsupportedOperatorError {
            attribute: Attribute::Size,
            operator: CompOp::Like
        })
    );
    assert_eq!(
        RegexFilter::new(&tuple(Attribute::Name, CompOp::Equal, "x")).err(),
        Some(FilterError::UnsupportedOperatorError {
            attribute: Attribute::Name,
            operator: CompOp::Equal
        })
    );
}

#[test]
fn filetype_aliases_name_three_kinds() {
    for (alias, kind) in [
        ("d", FileKind::Dir),
        ("dir", FileKind::Dir),
        ("directory", FileKind::Dir),
        ("f", FileKind::File),
        ("file", FileKind::File),
        ("l", FileKind::Link),
        ("link", FileKind::Link),
        ("slink", FileKind::Link),
        ("symlink", FileKind::Link),
    ] {
        let filter = FiletypeFilter::new(alias).unwrap();
        for other in [FileKind::File, FileKind::Dir, FileKind::Link, FileKind::Other] {
            assert_eq!(filter.test(&of_kind(other)), other == kind);
        }
        assert!(!filter.test(&unreadable()));
    }
}

#[test]
fn directory_aliases_agree_on_every_entry() {
    let short = FiletypeFilter::new("d").unwrap();
    let medium = FiletypeFilter::new("dir").unwrap();
    let long = FiletypeFilter::new("directory").unwrap();
    for entry in [
        of_kind(FileKind::File),
        of_kind(FileKind::Dir),
        of_kind(FileKind::Link),
        of_kind(FileKind::Other),
        unreadable(),
    ] {
        assert_eq!(short.test(&entry), medium.test(&entry));
        assert_eq!(medium.test(&entry), long.test(&entry));
    }
}

#[test]
fn filetype_filter_rejects_unknown_names() {
    for name in ["", "D", "dirs", "folder", "files", "fifo", " d"] {
        assert_eq!(
            FiletypeFilter::new(name).err(),
            Some(FilterError::InvalidFiletypeError { parameter: String::from(name) })
        );
    }
}

#[test]
fn filetype_filter_ignores_the_operator() {
    let filter = built(Attribute::Filetype, CompOp::Unequal, "d");
    assert!(filter.test(&of_kind(FileKind::Dir)));
    assert!(!filter.test(&of_kind(FileKind::File)));
}

#[test]
fn id_filters_compare_owner_and_group() {
    let is = UidFilter::new(CompOp::Equal, 1000).unwrap();
    assert!(is.test(&owned(1000, 5)));
    assert!(!is.test(&owned(1001, 1000)));
    let is_not = UidFilter::new(CompOp::Unequal, 1000).unwrap();
    assert!(!is_not.test(&owned(1000, 5)));
    assert!(is_not.test(&owned(1001, 1000)));
    assert!(!is_not.test(&unreadable()));
    let group = GidFilter::new(CompOp::Equal, 5).unwrap();
    assert!(group.test(&owned(1000, 5)));
    assert!(!group.test(&owned(5, 6)));
    let not_group = GidFilter::new(CompOp::Unequal, 5).unwrap();
    assert!(not_group.test(&owned(5, 6)));
    assert!(!not_group.test(&owned(6, 5)));
    assert!(!not_group.test(&unreadable()));
}

#[test]
fn id_filters_take_two_operators() {
    for operator in [
        CompOp::Lower,
        CompOp::LowerEqual,
        CompOp::GreaterEqual,
        CompOp::Greater,
        CompOp::Like,
        CompOp::Unlike,
    ] {
        assert_eq!(
            UidFilter::new(operator, 0).err(),
            Some(FilterError::UnsupportedOperatorError { attribute: Attribute::Uid, operator })
        );
        assert_eq!(
            GidFilter::new(operator, 0).err(),
            Some(FilterError::UnsupportedOperatorError { attribute: Attribute::Gid, operator })
        );
    }
}

#[test]
fn unsigned_numbers_are_digits_that_fit_32_bits() {
    assert_eq!(parse_unsigned("0"), Some(0));
    assert_eq!(parse_unsigned("007"), Some(7));
    assert_eq!(parse_unsigned("+12"), Some(12));
    assert_eq!(parse_unsigned("4294967295"), Some(u32::MAX));
    assert_eq!(parse_unsigned("4294967296"), None);
    assert_eq!(parse_unsigned("99999999999999999999999"), None);
    assert_eq!(parse_unsigned(""), None);
    assert_eq!(parse_unsigned("+"), None);
    assert_eq!(parse_unsigned("-1"), None);
    assert_eq!(parse_unsigned("1 "), None);
    assert_eq!(parse_unsigned("1a"), None);
    for text in ["0", "42", "+9", "4294967295", "4294967296", "x", "", "1.5"] {
        assert_eq!(parse_unsigned(text), text.parse::<u32>().ok());
    }
}

#[test]
fn relative_literals_are_seconds_with_a_sign() {
    assert_eq!(parse_relative("1s"), RelativeTime::Seconds(1));
    assert_eq!(parse_relative("2m"), RelativeTime::Seconds(120));
    assert_eq!(parse_relative("3h"), RelativeTime::Seconds(10800));
    assert_eq!(parse_relative("5D"), RelativeTime::Seconds(432000));
    assert_eq!(parse_relative("-5D"), RelativeTime::Seconds(-432000));
    assert_eq!(parse_relative("1W"), RelativeTime::Seconds(604800));
    assert_eq!(parse_relative("1M"), RelativeTime::Seconds(2592000));
    assert_eq!(parse_relative("1Y"), RelativeTime::Seconds(31536000));
    assert_eq!(parse_relative("-0D"), RelativeTime::Seconds(0));
    assert_eq!(parse_relative("9223372036854775807s"), RelativeTime::Seconds(i64::MAX));
    assert_eq!(parse_relative("-9223372036854775807s"), RelativeTime::Seconds(-i64::MAX));
    assert_eq!(parse_relative("9223372036854775808s"), RelativeTime::TooLarge);
    assert_eq!(parse_relative("-9223372036854775808s"), RelativeTime::TooLarge);
    assert_eq!(parse_relative("292471208678Y"), RelativeTime::TooLarge);
    assert_eq!(parse_relative("99999999999999999999999999s"), RelativeTime::TooLarge);
    for text in ["", "5", "D", "-D", "5d", "5 D", "5.5D", "5DD", "x5D", "+5D", "2020-01-01", "10:00"] {
        assert_eq!(parse_relative(text), RelativeTime::Absent);
    }
}

#[test]
fn date_and_time_literals_have_fixed_widths() {
    assert_eq!(parse_date("2020-01-01"), Some((2020, 1, 1)));
    assert_eq!(parse_date("0099-12-31"), Some((99, 12, 31)));
    assert_eq!(parse_date("2020-13-45"), Some((2020, 13, 45)));
    for text in ["2020-1-1", "2020-01-01 ", "20200101", "2020/01/01", "2020-01-01 10:00", ""] {
        assert_eq!(parse_date(text), None);
    }
    assert_eq!(parse_time("10:30"), Some((10, 30)));
    assert_eq!(parse_time("00:00"), Some((0, 0)));
    assert_eq!(parse_time("99:99"), Some((99, 99)));
    for text in ["5:30", "10:3", "10.30", "10:30:00", " 10:30", ""] {
        assert_eq!(parse_time(text), None);
    }
}

#[test]
fn relative_filter_lies_the_offset_before_now() {
    let before = Utc::now().timestamp();
    let filter = TimeFilter::new(Attribute::Mtime, CompOp::Lower, "5D").unwrap();
    let after = Utc::now().timestamp();
    assert!(before - 432000 <= filter.timestamp() && filter.timestamp() <= after - 432000);
    assert_eq!(filter.window(), 0);
    assert!(!filter.inverted());
}

#[test]
fn sign_of_an_offset_inverts_the_ordering_operators() {
    for operator in [CompOp::Lower, CompOp::LowerEqual, CompOp::GreaterEqual, CompOp::Greater] {
        let now = 1_600_000_000;
        let plain = TimeFilter::relative(Attribute::Mtime, operator, 432000, now).unwrap();
        let signed = TimeFilter::relative(Attribute::Mtime, operator, -432000, now).unwrap();
        assert_eq!(plain.timestamp(), now - 432000);
        assert_eq!(signed.timestamp(), now - 432000);
        assert!(!plain.inverted());
        assert!(signed.inverted());
        for mtime in [0, 1_599_567_999, 1_599_568_000, 1_599_568_001, 1_600_000_000, u64::MAX] {
            let entry = timed(Some(mtime), None, None);
            assert_ne!(plain.test(&entry), signed.test(&entry));
        }
    }
}

#[test]
fn sign_inversion_on_an_entry_modified_now() {
    let plain = TimeFilter::new(Attribute::Mtime, CompOp::Lower, "5D").unwrap();
    let signed = TimeFilter::new(Attribute::Mtime, CompOp::Lower, "-5D").unwrap();
    let entry = timed(Some(Utc::now().timestamp() as u64), None, None);
    assert!(!plain.test(&entry));
    assert!(signed.test(&entry));
    assert!(!plain.test(&timed(None, Some(0), Some(0))));
    assert!(!signed.test(&timed(None, Some(0), Some(0))));
}

#[test]
fn sign_does_not_touch_equality() {
    let plain = TimeFilter::relative(Attribute::Atime, CompOp::Equal, 60, 1000).unwrap();
    let signed = TimeFilter::relative(Attribute::Atime, CompOp::Equal, -60, 1000).unwrap();
    assert!(!signed.inverted());
    for atime in [939, 940, 941] {
        let entry = timed(None, None, Some(atime));
        assert_eq!(plain.test(&entry), atime == 940);
        assert_eq!(signed.test(&entry), atime == 940);
    }
}

#[test]
fn relative_filter_compares_each_operator() {
    let reference = 1000 - 60;
    for (operator, expected) in [
        (CompOp::Lower, [true, false, false]),
        (CompOp::LowerEqual, [true, true, false]),
        (CompOp::Equal, [false, true, false]),
        (CompOp::GreaterEqual, [false, true, true]),
        (CompOp::Greater, [false, false, true]),
    ] {
        let filter = TimeFilter::relative(Attribute::Ctime, operator, 60, 1000).unwrap();
        for (i, ctime) in [reference - 1, reference, reference + 1].into_iter().enumerate() {
            assert_eq!(filter.test(&timed(None, Some(ctime), None)), expected[i]);
        }
        assert!(!filter.test(&timed(Some(reference), None, Some(reference))));
        assert!(!filter.test(&unreadable()));
    }
}

#[test]
fn relative_filter_may_refer_to_before_the_epoch() {
    let filter = TimeFilter::relative(Attribute::Mtime, CompOp::Greater, 31536000, 100).unwrap();
    assert_eq!(filter.timestamp(), 100 - 31536000);
    assert!(filter.test(&timed(Some(0), None, None)));
    let earlier = TimeFilter::relative(Attribute::Mtime, CompOp::Lower, 31536000, 100).unwrap();
    assert!(!earlier.test(&timed(Some(0), None, None)));
    assert_eq!(
        TimeFilter::relative(Attribute::Mtime, CompOp::Lower, i64::MAX, -2).err(),
        Some(FilterError::ClockError)
    );
    assert_eq!(
        TimeFilter::relative(Attribute::Mtime, CompOp::Lower, i64::MIN, -1).err(),
        Some(FilterError::ClockError)
    );
    let lowest = TimeFilter::relative(Attribute::Mtime, CompOp::Lower, i64::MIN, 0).unwrap();
    assert_eq!(lowest.timestamp(), i64::MIN);
    assert!(lowest.inverted());
    assert!(TimeFilter::relative(Attribute::Mtime, CompOp::Lower, i64::MAX, -1).is_ok());
}

#[test]
fn time_filter_rejects_other_attributes_and_operators() {
    assert_eq!(
        TimeFilter::new(Attribute::Name, CompOp::Equal, "5D").err(),
        Some(FilterError::UnimplementedAttributeError { attribute: Attribute::Name })
    );
    assert_eq!(
        TimeFilter::new(Attribute::Mtime, CompOp::Like, "5D").err(),
        Some(FilterError::UnsupportedOperatorError {
            attribute: Attribute::Mtime,
            operator: CompOp::Like
        })
    );
    assert_eq!(
        TimeFilter::absolute(Attribute::Size, CompOp::Equal, "x", Some(0), None, None).err(),
        Some(FilterError::UnimplementedAttributeError { attribute: Attribute::Size })
    );
    assert_eq!(
        TimeFilter::relative(Attribute::Ctime, CompOp::Unequal, 1, 1).err(),
        Some(FilterError::UnsupportedOperatorError {
            attribute: Attribute::Ctime,
            operator: CompOp::Unequal
        })
    );
}

#[test]
fn too_large_an_offset_is_an_invalid_literal() {
    assert_eq!(
        TimeFilter::new(Attribute::Mtime, CompOp::Lower, "9223372036854775808s").err(),
        Some(FilterError::InvalidTimeLiteralError {
            parameter: String::from("9223372036854775808s")
        })
    );
    assert_eq!(
        TimeFilter::new(Attribute::Mtime, CompOp::Lower, "300000000000Y").err(),
        Some(FilterError::InvalidTimeLiteralError { parameter: String::from("300000000000Y") })
    );
}

#[test]
fn absolute_reading_prefers_datetime_then_date_then_time() {
    let op = CompOp::Equal;
    let a = Attribute::Mtime;
    let f = TimeFilter::absolute(a, op, "x", Some(10), Some(20), Some(30)).unwrap();
    assert_eq!((f.timestamp(), f.window(), f.inverted()), (10, 60, false));
    let f = TimeFilter::absolute(a, op, "x", None, Some(20), Some(30)).unwrap();
    assert_eq!((f.timestamp(), f.window(), f.inverted()), (20, 86400, false));
    let f = TimeFilter::absolute(a, op, "x", None, None, Some(30)).unwrap();
    assert_eq!((f.timestamp(), f.window(), f.inverted()), (30, 60, false));
    assert_eq!(
        TimeFilter::absolute(a, op, "never", None, None, None).err(),
        Some(FilterError::InvalidTimeLiteralError { parameter: String::from("never") })
    );
    let f = TimeFilter::absolute(a, op, "x", Some(-5), None, None).unwrap();
    assert_eq!(f.timestamp(), -5);
    assert!(f.test(&timed(Some(0), None, None)));
    assert!(f.test(&timed(Some(55), None, None)));
    assert!(!f.test(&timed(Some(56), None, None)));
}

#[test]
fn equality_on_a_date_accepts_that_day() {
    let filter = TimeFilter::new(Attribute::Ctime, CompOp::Equal, "2020-01-01").unwrap();
    let midnight = Local.with_ymd_and_hms(2020, 1, 1, 0, 0, 0).single().unwrap().timestamp();
    let next = Local.with_ymd_and_hms(2020, 1, 2, 0, 0, 0).single().unwrap().timestamp();
    assert_eq!(filter.timestamp(), midnight);
    assert_eq!(filter.window(), 86400);
    assert!(!filter.inverted());
    let start = midnight as u64;
    for inside in [start, start + 1, start + 43200, start + 86399] {
        assert!(filter.test(&timed(None, Some(inside), None)));
    }
    for outside in [0, start - 1, start + 86401, start + 172800, u64::MAX] {
        assert!(!filter.test(&timed(None, Some(outside), None)));
    }
    assert_eq!(next as u64, start + 86400);
    assert!(filter.test(&timed(None, Some(start + 86400), None)));
    assert!(!filter.test(&timed(Some(start), None, Some(start))));
}

#[test]
fn date_with_time_has_a_window_of_a_minute() {
    let filter = TimeFilter::new(Attribute::Mtime, CompOp::Equal, "2020-06-15 10:30").unwrap();
    let expected = Local.with_ymd_and_hms(2020, 6, 15, 10, 30, 0).single().unwrap().timestamp();
    assert_eq!(filter.timestamp(), expected);
    assert_eq!(filter.window(), 60);
    let start = expected as u64;
    assert!(filter.test(&timed(Some(start), None, None)));
    assert!(filter.test(&timed(Some(start + 60), None, None)));
    assert!(!filter.test(&timed(Some(start + 61), None, None)));
    assert!(!filter.test(&timed(Some(start - 1), None, None)));
}

#[test]
fn time_of_day_refers_to_today() {
    let before = Local::now();
    let filter = TimeFilter::new(Attribute::Atime, CompOp::GreaterEqual, "10:30").unwrap();
    let after = Local::now();
    assert_eq!(filter.window(), 60);
    assert!(!filter.inverted());
    let earliest = Local
        .with_ymd_and_hms(
            chrono::Datelike::year(&before),
            chrono::Datelike::month(&before),
            chrono::Datelike::day(&before),
            10,
            30,
            0,
        )
        .single()
        .unwrap()
        .timestamp();
    let latest = Local
        .with_ymd_and_hms(
            chrono::Datelike::year(&after),
            chrono::Datelike::month(&after),
            chrono::Datelike::day(&after),
            10,
            30,
            59,
        )
        .single()
        .unwrap()
        .timestamp();
    assert!(earliest <= filter.timestamp() && filter.timestamp() <= latest);
}

#[test]
fn dates_outside_the_calendar_are_invalid() {
    for text in ["2020-13-01", "2020-00-10", "2020-02-30", "2020-01-32", "25:00", "10:60", "5:30"] {
        assert_eq!(
            TimeFilter::new(Attribute::Mtime, CompOp::Equal, text).err(),
            Some(FilterError::InvalidTimeLiteralError { parameter: String::from(text) })
        );
    }
}

fn local(year: i32, month: u32, day: u32, hour: u32, minute: u32) -> i64 {
    Local.with_ymd_and_hms(year, month, day, hour, minute, 0).single().unwrap().timestamp()
}

#[test]
fn a_date_is_its_local_midnight() {
    let civil = 1577836800;
    let found = parse_abs_date("2020-01-01").unwrap();
    assert_eq!(found, local(2020, 1, 1, 0, 0));
    assert!(civil - 86400 < found && found < civil + 86400);
    assert_eq!(parse_abs_date("1970-01-01").unwrap(), local(1970, 1, 1, 0, 0));
    assert_eq!(parse_abs_date("2020-02-29").unwrap(), local(2020, 2, 29, 0, 0));
    assert_eq!(parse_abs_date("1969-12-31").unwrap(), local(1969, 12, 31, 0, 0));
    assert!(parse_abs_date("1969-12-30").unwrap() < 0);
    assert_eq!(
        parse_abs_date("2020-01-02").unwrap() - parse_abs_date("2020-01-01").unwrap(),
        local(2020, 1, 2, 0, 0) - local(2020, 1, 1, 0, 0)
    );
}

#[test]
fn a_date_outside_the_calendar_has_no_midnight() {
    for text in [
        "2020-00-01",
        "2020-13-01",
        "2020-01-00",
        "2020-01-32",
        "2020-02-30",
        "2021-02-29",
        "2020-04-31",
        "2020-1-1",
        "2020-01-01 10:30",
        "10:30",
        "5D",
        "",
    ] {
        assert_eq!(parse_abs_date(text), None);
    }
}

#[test]
fn a_date_with_a_time_is_that_local_minute() {
    let civil = 1592217000;
    let found = parse_abs_datetime("2020-06-15 10:30").unwrap();
    assert_eq!(found, local(2020, 6, 15, 10, 30));
    assert!(civil - 86400 < found && found < civil + 86400);
    assert_eq!(parse_abs_datetime("2020-06-15 9:05").unwrap(), local(2020, 6, 15, 9, 5));
    assert_eq!(parse_abs_datetime("2020-6-5 7:05").unwrap(), local(2020, 6, 5, 7, 5));
    assert_eq!(parse_abs_datetime("1970-01-01 00:00").unwrap(), local(1970, 1, 1, 0, 0));
    for text in [
        "2020-06-15",
        "10:30",
        "2020-06-15 10:30:00",
        "2020-06-15 24:00",
        "2020-06-15 10:60",
        "2020-02-30 10:30",
        "2020-13-01 10:30",
        "2020-06-15T10:30",
        "5D",
        "",
    ] {
        assert_eq!(parse_abs_datetime(text), None);
    }
}

#[test]
fn a_time_of_day_is_on_the_day_of_the_call() {
    let before = Local::now().timestamp();
    let found = parse_abs_time("10:30").unwrap();
    let after = Local::now().timestamp();
    assert!(before - 2 * 86400 < found && found < after + 2 * 86400);
    let at = Local.timestamp_opt(found, 0).single().unwrap();
    assert_eq!(chrono::Timelike::hour(&at), 10);
    assert_eq!(chrono::Timelike::minute(&at), 30);
    let day = chrono::Datelike::day(&at);
    let first = chrono::Datelike::day(&Local.timestamp_opt(before, 0).single().unwrap());
    let last = chrono::Datelike::day(&Local.timestamp_opt(after, 0).single().unwrap());
    assert!(day == first || day == last);
    for text in ["24:00", "10:60", "99:99", "5:30", "10:3", "2020-01-01", "5D", ""] {
        assert_eq!(parse_abs_time(text), None);
    }
}

#[test]
fn the_clock_reads_the_seconds_since_the_epoch() {
    let before = Utc::now().timestamp();
    let now = unix_now().unwrap();
    let after = Utc::now().timestamp();
    assert!(before <= now && now <= after);
    assert!(now > 1_600_000_000);
}

#[test]
fn today_at_is_on_the_local_day_of_the_moment() {
    for now in [0, 1, 86399, 86400, 1_592_217_000, 1_592_265_599, 1_592_179_200, 1_700_000_000] {
        let moment = Local.timestamp_opt(now, 0).single().unwrap();
        for (hour, minute) in [(0, 0), (8, 15), (12, 0), (23, 59)] {
            let expected = Local
                .with_ymd_and_hms(
                    chrono::Datelike::year(&moment),
                    chrono::Datelike::month(&moment),
                    chrono::Datelike::day(&moment),
                    hour,
                    minute,
                    0,
                )
                .single()
                .unwrap()
                .timestamp();
            assert_eq!(today_at(now, hour, minute), Some(expected));
        }
    }
    assert_eq!(today_at(1_592_217_000, 10, 30), today_at(1_592_217_059, 10, 30));
}

#[test]
fn today_at_wants_a_time_that_a_day_has() {
    assert_eq!(today_at(1_592_217_000, 24, 0), None);
    assert_eq!(today_at(1_592_217_000, 0, 60), None);
    assert_eq!(today_at(-1, 10, 30), None);
    assert_eq!(today_at(i64::MAX, 10, 30), None);
}

#[test]
fn the_local_day_follows_the_midnights() {
    let day = 86400;
    let start = 10 * day;
    let now = start + 1000;
    assert_eq!(pick_local_day(now, start, Some(start - 7200), Some(start + day - 7200)), Some(start));
    assert_eq!(pick_local_day(now, start, Some(now), Some(now + day)), Some(start));
    assert_eq!(pick_local_day(now, start, Some(now + 1), Some(now + day)), Some(start - day));
    assert_eq!(pick_local_day(now, start, Some(start + 7200), None), Some(start - day));
    assert_eq!(pick_local_day(now, start, Some(start + 7200), Some(0)), Some(start - day));
    let late = start + day - 1;
    assert_eq!(pick_local_day(late, start, Some(start - 7200), Some(late)), Some(start + day));
    assert_eq!(pick_local_day(late, start, Some(start - 7200), Some(late + 1)), Some(start));
    assert_eq!(pick_local_day(late, start, None, Some(late)), Some(start + day));
    assert_eq!(pick_local_day(late, start, None, Some(late + 1)), None);
    assert_eq!(pick_local_day(late, start, Some(start - 7200), None), None);
    assert_eq!(pick_local_day(late, start, None, None), None);
}

#[test]
fn a_date_alone_has_a_window_of_a_day() {
    for text in ["2020-01-01", "1999-12-31", "2024-02-29"] {
        let filter = TimeFilter::new(Attribute::Mtime, CompOp::Equal, text).unwrap();
        assert_eq!(filter.window(), 86400);
        assert_eq!(Some(filter.timestamp()), parse_abs_date(text));
    }
    for text in ["2020-01-01 00:00", "2020-01-01 0:00", "00:00"] {
        let filter = TimeFilter::new(Attribute::Mtime, CompOp::Equal, text).unwrap();
        assert_eq!(filter.window(), 60);
    }
}
