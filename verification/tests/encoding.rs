use krunner::model::RELEVANCE_ONE;
use krunner::nix::ProgramAction;
use krunner::wire::{copy_bytes, copy_texts, encode_matches};
use krunner::{
    Config, DictEntry, ImageData, ImageFormat, Match, MatchFilter, MatchIcon, MatchType,
    RemoteImage, WireValue,
};

fn image(format: ImageFormat) -> ImageData {
    ImageData {
        width: 2,
        height: 1,
        row_stride: 8,
        has_alpha: true,
        format,
        data: vec![1, 2, 3, 4, 5, 6, 7, 8],
    }
}

fn keys(extra: &[DictEntry]) -> Vec<String> {
    extra.iter().map(|e| e.key.clone()).collect()
}

#[test]
fn default_match_has_the_documented_values() {
    let m: Match<ProgramAction> = Match::default();
    assert_eq!(f64::from_bits(m.relevance), 1.0);
    assert_eq!(m.relevance, RELEVANCE_ONE);
    assert_eq!(m.ty, MatchType::PossibleMatch);
    assert_eq!(m.icon, MatchIcon::ByName("".to_owned()));
    assert_eq!(m.id, "");
    assert_eq!(m.title, "");
    assert_eq!(m.subtitle, None);
    assert!(m.urls.is_empty());
    assert_eq!(m.category, None);
    assert!(!m.multiline);
    assert!(m.actions.is_empty());
}

#[test]
fn relevance_constant_is_the_bits_of_one() {
    assert_eq!(RELEVANCE_ONE, 1.0f64.to_bits());
}

#[test]
fn default_match_encodes_an_empty_dictionary() {
    let m: Match<ProgramAction> = Match::default();
    let r = m.encode();
    assert_eq!(r.id, "");
    assert_eq!(r.title, "");
    assert_eq!(r.icon, "");
    assert_eq!(r.ty, 30);
    assert_eq!(f64::from_bits(r.relevance), 1.0);
    assert!(r.extra.is_empty());
}

#[test]
fn positional_fields_pass_through() {
    let m: Match<ProgramAction> = Match {
        id: "m1".to_owned(),
        title: "Title".to_owned(),
        icon: MatchIcon::ByName("folder".to_owned()),
        ty: MatchType::ExactMatch,
        relevance: 0.25f64.to_bits(),
        ..Match::default()
    };
    let r = m.encode();
    assert_eq!(r.id, "m1");
    assert_eq!(r.title, "Title");
    assert_eq!(r.icon, "folder");
    assert_eq!(r.ty, 100);
    assert_eq!(f64::from_bits(r.relevance), 0.25);
    assert!(r.extra.is_empty());
}

#[test]
fn relevance_outside_the_unit_range_is_passed_on() {
    let m: Match<ProgramAction> = Match { relevance: (-3.5f64).to_bits(), ..Match::default() };
    assert_eq!(f64::from_bits(m.encode().relevance), -3.5);
}

#[test]
fn urls_add_exactly_their_key() {
    let m: Match<ProgramAction> =
        Match { urls: vec!["https://a".to_owned(), "https://b".to_owned()], ..Match::default() };
    let r = m.encode();
    assert_eq!(
        r.extra,
        vec![DictEntry {
            key: "urls".to_owned(),
            value: WireValue::TextList(vec!["https://a".to_owned(), "https://b".to_owned()]),
        }]
    );
}

#[test]
fn category_adds_exactly_its_key() {
    let m: Match<ProgramAction> = Match { category: Some("Apps".to_owned()), ..Match::default() };
    assert_eq!(
        m.encode().extra,
        vec![DictEntry { key: "category".to_owned(), value: WireValue::Text("Apps".to_owned()) }]
    );
}

#[test]
fn subtitle_adds_exactly_its_key() {
    let m: Match<ProgramAction> = Match { subtitle: Some("more".to_owned()), ..Match::default() };
    assert_eq!(
        m.encode().extra,
        vec![DictEntry { key: "subtitle".to_owned(), value: WireValue::Text("more".to_owned()) }]
    );
}

#[test]
fn multiline_adds_exactly_its_key() {
    let m: Match<ProgramAction> = Match { multiline: true, ..Match::default() };
    assert_eq!(
        m.encode().extra,
        vec![DictEntry { key: "multiline".to_owned(), value: WireValue::Flag(true) }]
    );
}

#[test]
fn actions_are_encoded_as_their_ids() {
    let m: Match<ProgramAction> = Match { actions: vec![ProgramAction::Run], ..Match::default() };
    assert_eq!(m.action_ids(), vec!["run".to_owned()]);
    assert_eq!(
        m.encode().extra,
        vec![DictEntry {
            key: "actions".to_owned(),
            value: WireValue::TextList(vec!["run".to_owned()]),
        }]
    );
}

#[test]
fn custom_icon_goes_to_icon_data_and_leaves_the_name_empty() {
    let m: Match<ProgramAction> =
        Match { icon: MatchIcon::Custom(image(ImageFormat::Argb32)), ..Match::default() };
    let r = m.encode();
    assert_eq!(r.icon, "");
    assert_eq!(
        r.extra,
        vec![DictEntry {
            key: "icon-data".to_owned(),
            value: WireValue::Image(RemoteImage {
                width: 2,
                height: 1,
                row_stride: 8,
                has_alpha: true,
                bits_per_sample: 8,
                channels: 4,
                data: vec![1, 2, 3, 4, 5, 6, 7, 8],
            }),
        }]
    );
}

#[test]
fn all_fields_set_give_all_six_keys_once() {
    let m: Match<ProgramAction> = Match {
        id: "m".to_owned(),
        title: "t".to_owned(),
        subtitle: Some("s".to_owned()),
        icon: MatchIcon::Custom(image(ImageFormat::Rgb32)),
        ty: MatchType::HelperMatch,
        relevance: 0.5f64.to_bits(),
        urls: vec!["u".to_owned()],
        category: Some("c".to_owned()),
        multiline: true,
        actions: vec![ProgramAction::Run, ProgramAction::Run],
    };
    let r = m.encode();
    assert_eq!(r.ty, 70);
    assert_eq!(
        keys(&r.extra),
        vec!["urls", "category", "subtitle", "multiline", "actions", "icon-data"]
    );
    assert_eq!(r.extra[4].value, WireValue::TextList(vec!["run".to_owned(), "run".to_owned()]));
}

#[test]
fn encoding_twice_gives_the_same_record() {
    let m: Match<ProgramAction> = Match {
        id: "m".to_owned(),
        urls: vec!["u".to_owned()],
        category: Some("c".to_owned()),
        actions: vec![ProgramAction::Run],
        ..Match::default()
    };
    assert_eq!(m.encode(), m.encode());
    assert_eq!(m.clone().encode(), m.encode());
    let c: Config<ProgramAction> = Config {
        match_filter: Some(MatchFilter::Regex("^nix ".to_owned())),
        min_letter_count: Some(3),
        ..Config::default()
    };
    assert_eq!(c.encode(), c.encode());
    assert_eq!(c.clone().encode(), c.encode());
}

#[test]
fn matches_are_encoded_in_order() {
    let a: Match<ProgramAction> = Match::new("a".to_owned());
    let b: Match<ProgramAction> = Match::new("b".to_owned()).multiline();
    let records = encode_matches(&vec![a.clone(), b.clone()]);
    assert_eq!(records, vec![a.encode(), b.encode()]);
    assert_eq!(records[0].id, "a");
    assert_eq!(records[1].id, "b");
    assert!(encode_matches::<ProgramAction>(&vec![]).is_empty());
}

#[test]
fn match_type_numbers() {
    assert_eq!(MatchType::NoMatch.wire_tag(), 0);
    assert_eq!(MatchType::CompletionMatch.wire_tag(), 10);
    assert_eq!(MatchType::PossibleMatch.wire_tag(), 30);
    assert_eq!(MatchType::InformationalMatch.wire_tag(), 50);
    assert_eq!(MatchType::HelperMatch.wire_tag(), 70);
    assert_eq!(MatchType::ExactMatch.wire_tag(), 100);
}

#[test]
fn match_types_are_ordered_by_confidence() {
    assert!(MatchType::NoMatch < MatchType::CompletionMatch);
    assert!(MatchType::CompletionMatch < MatchType::PossibleMatch);
    assert!(MatchType::PossibleMatch < MatchType::InformationalMatch);
    assert!(MatchType::InformationalMatch < MatchType::HelperMatch);
    assert!(MatchType::HelperMatch < MatchType::ExactMatch);
}

#[test]
fn comparison_follows_the_numbers() {
    let all = [
        MatchType::NoMatch,
        MatchType::CompletionMatch,
        MatchType::PossibleMatch,
        MatchType::InformationalMatch,
        MatchType::HelperMatch,
        MatchType::ExactMatch,
    ];
    for a in all {
        for b in all {
            assert_eq!(a > b, a.wire_tag() > b.wire_tag());
            assert_eq!(a <= b, a.wire_tag() <= b.wire_tag());
            assert_eq!(a < b, a.wire_tag() < b.wire_tag());
            assert_eq!(a.cmp(&b), a.wire_tag().cmp(&b.wire_tag()));
            assert_eq!(a.partial_cmp(&b), Some(a.cmp(&b)));
            assert_eq!(a == b, a.wire_tag() == b.wire_tag());
        }
    }
    assert!(MatchType::PossibleMatch < MatchType::HelperMatch);
    assert!(!(MatchType::ExactMatch < MatchType::ExactMatch));
    assert!(!(MatchType::ExactMatch < MatchType::NoMatch));
}

#[test]
fn image_formats() {
    assert_eq!(ImageFormat::Argb32.bits_per_sample(), 8);
    assert_eq!(ImageFormat::Rgb32.bits_per_sample(), 8);
    assert_eq!(ImageFormat::Argb32.channels(), 4);
    assert_eq!(ImageFormat::Rgb32.channels(), 3);
}

#[test]
fn image_encodes_as_seven_fields() {
    let r = image(ImageFormat::Rgb32).encode();
    assert_eq!(
        r,
        RemoteImage {
            width: 2,
            height: 1,
            row_stride: 8,
            has_alpha: true,
            bits_per_sample: 8,
            channels: 3,
            data: vec![1, 2, 3, 4, 5, 6, 7, 8],
        }
    );
}

#[test]
fn image_data_is_not_validated() {
    let odd = ImageData {
        width: -1,
        height: 100,
        row_stride: 7,
        has_alpha: false,
        format: ImageFormat::Argb32,
        data: vec![],
    };
    let r = odd.encode();
    assert_eq!(r.width, -1);
    assert_eq!(r.height, 100);
    assert_eq!(r.row_stride, 7);
    assert!(!r.has_alpha);
    assert!(r.data.is_empty());
}

#[test]
fn icon_constructors() {
    assert_eq!(MatchIcon::new(), MatchIcon::ByName(String::new()));
    assert_eq!(MatchIcon::default(), MatchIcon::ByName(String::new()));
    assert_eq!(MatchIcon::from("x".to_owned()), MatchIcon::ByName("x".to_owned()));
    let i = image(ImageFormat::Argb32);
    assert_eq!(MatchIcon::from(i.clone()), MatchIcon::Custom(i));
}

#[test]
fn default_config_encodes_only_the_actions() {
    let c: Config<ProgramAction> = Config::default();
    assert_eq!(c.match_filter, None);
    assert_eq!(c.min_letter_count, None);
    let d = c.encode();
    assert_eq!(d.len(), 1);
    assert_eq!(d[0].key, "Actions");
    match &d[0].value {
        WireValue::ActionList(v) => {
            assert_eq!(v.len(), 1);
            assert_eq!(v[0].id, "run");
            assert_eq!(v[0].title, "Run Nix program");
            assert_eq!(v[0].icon, "system-run-symbolic");
        }
        other => panic!("unexpected value {:?}", other),
    }
}

#[test]
fn config_with_keywords_encodes_trigger_words() {
    let c: Config<ProgramAction> = Config {
        match_filter: Some(MatchFilter::Keywords(vec!["nix".to_owned(), "run".to_owned()])),
        ..Config::default()
    };
    let d = c.encode();
    assert_eq!(keys(&d), vec!["TriggerWords", "Actions"]);
    assert_eq!(d[0].value, WireValue::TextList(vec!["nix".to_owned(), "run".to_owned()]));
}

#[test]
fn config_with_regex_and_minimum_length() {
    let c: Config<ProgramAction> = Config {
        match_filter: Some(MatchFilter::Regex("^nix .+".to_owned())),
        min_letter_count: Some(4),
        ..Config::default()
    };
    let d = c.encode();
    assert_eq!(keys(&d), vec!["MatchRegex", "MinLetterCount", "Actions"]);
    assert_eq!(d[0].value, WireValue::Text("^nix .+".to_owned()));
    assert_eq!(d[1].value, WireValue::Int32(4));
}

#[test]
fn builder_sets_one_field_at_a_time() {
    let m: Match<ProgramAction> = Match::new("id".to_owned());
    assert_eq!(m.id, "id");
    assert_eq!(m.ty, MatchType::PossibleMatch);
    assert_eq!(f64::from_bits(m.relevance), 1.0);
    assert_eq!(m.icon, MatchIcon::ByName(String::new()));
    assert_eq!(m, Match { id: "id".to_owned(), ..Match::default() });
    assert!(m.clone().encode().extra.is_empty());

    let m = m
        .text("text".to_owned())
        .icon("icon".to_owned())
        .ty(MatchType::CompletionMatch)
        .relevance(0.75f64.to_bits())
        .url("u1".to_owned())
        .url("u2".to_owned())
        .category("cat".to_owned())
        .subtext("sub".to_owned())
        .multiline()
        .action(ProgramAction::Run);
    assert_eq!(
        m,
        Match {
            id: "id".to_owned(),
            title: "text".to_owned(),
            subtitle: Some("sub".to_owned()),
            icon: MatchIcon::ByName("icon".to_owned()),
            ty: MatchType::CompletionMatch,
            relevance: 0.75f64.to_bits(),
            urls: vec!["u1".to_owned(), "u2".to_owned()],
            category: Some("cat".to_owned()),
            multiline: true,
            actions: vec![ProgramAction::Run],
        }
    );
    let i = image(ImageFormat::Argb32);
    let m = m.icon_data(i.clone());
    assert_eq!(m.icon, MatchIcon::Custom(i));
    assert_eq!(m.title, "text");
}

#[test]
fn copies_keep_the_contents() {
    assert_eq!(copy_bytes(&vec![9, 8, 7]), vec![9, 8, 7]);
    assert!(copy_bytes(&vec![]).is_empty());
    assert_eq!(copy_texts(&vec!["a".to_owned(), "".to_owned()]), vec!["a".to_owned(), "".to_owned()]);
}

#[test]
fn image_size_check() {
    assert!(image(ImageFormat::Argb32).is_well_formed());
    let mut short = image(ImageFormat::Argb32);
    short.data.pop();
    assert!(!short.is_well_formed());
    let mut negative = image(ImageFormat::Argb32);
    negative.height = -1;
    assert!(!negative.is_well_formed());
    let empty = ImageData {
        width: 0,
        height: 0,
        row_stride: 16,
        has_alpha: false,
        format: ImageFormat::Rgb32,
        data: vec![],
    };
    assert!(empty.is_well_formed());
    let both_negative = ImageData { height: -2, row_stride: -4, ..image(ImageFormat::Rgb32) };
    assert!(both_negative.is_well_formed());
}

#[test]
fn bus_signatures() {
    assert_eq!(krunner::wire::MATCH_SIGNATURE, "(sssida{sv})");
    assert_eq!(krunner::wire::DICT_SIGNATURE, "a{sv}");
    assert_eq!(krunner::wire::IMAGE_SIGNATURE, "(iiibiiay)");
}
