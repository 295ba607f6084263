use lhlist::declare::{
    impl_label, label, meta_key, AssocTypeDef, LabelMeta, LabelOptions, MetaKey, NameStr,
    UseLhlist,
};
use lhlist::uid::{generate_uint, UidCounter};

type Meta = LabelMeta<String, String, String>;

fn bits(text: &str) -> Vec<bool> {
    text.chars().map(|c| c == '1').collect()
}

#[test]
fn meta_key_knows_the_accepted_keys() {
    assert_eq!(meta_key("name"), Ok(MetaKey::Name));
    assert_eq!(meta_key("crate"), Ok(MetaKey::Crate));
    assert_eq!(meta_key("type"), Ok(MetaKey::Type));
    assert_eq!(meta_key("assoc_type"), Ok(MetaKey::Type));
}

#[test]
fn meta_key_rejects_other_keys() {
    let message = "expected type, assoc_type, crate, or name".to_string();
    assert_eq!(meta_key("dtype"), Err(message.clone()));
    assert_eq!(meta_key(""), Err(message.clone()));
    assert_eq!(meta_key("Name"), Err(message.clone()));
    assert_eq!(meta_key("names"), Err(message));
}

#[test]
fn options_default_to_none() {
    let opts = LabelOptions::<String, String, String>::parse(vec![]);
    assert_eq!(opts.name, None);
    assert_eq!(opts.assoc_type, None);
    assert_eq!(opts.crate_path, None);
}

#[test]
fn options_take_the_last_of_each_kind() {
    let opts = LabelOptions::parse(vec![
        Meta::CustomName("first".to_string()),
        Meta::AssocType("u8".to_string()),
        Meta::CustomName("second".to_string()),
        Meta::CratePath("crate".to_string()),
        Meta::AssocType("Vec<u32>".to_string()),
    ]);
    assert_eq!(opts.name, Some("second".to_string()));
    assert_eq!(opts.assoc_type, Some("Vec<u32>".to_string()));
    assert_eq!(opts.crate_path, Some("crate".to_string()));
}

#[test]
fn generate_uint_writes_one_bit_for_each_power_of_two() {
    assert_eq!(generate_uint(0), bits(""));
    assert_eq!(generate_uint(1), bits("1"));
    assert_eq!(generate_uint(2), bits("10"));
    assert_eq!(generate_uint(3), bits("011"));
    assert_eq!(generate_uint(4), bits("100"));
    assert_eq!(generate_uint(5), bits("0101"));
    assert_eq!(generate_uint(6), bits("0110"));
    assert_eq!(generate_uint(7), bits("0111"));
    assert_eq!(generate_uint(8), bits("1000"));
    assert_eq!(generate_uint(9), bits("01001"));
    assert_eq!(generate_uint(255), bits("011111111"));
    assert_eq!(generate_uint(256), bits("100000000"));
}

#[test]
fn generate_uint_of_the_largest_numbers() {
    let width = usize::BITS as usize;
    let top = 1usize << (width - 1);

    let written = generate_uint(top);
    assert_eq!(written.len(), width);
    assert!(written[0]);
    assert!(written[1..].iter().all(|bit| !bit));

    let written = generate_uint(usize::MAX);
    assert_eq!(written.len(), width + 1);
    assert!(!written[0]);
    assert!(written[1..].iter().all(|bit| *bit));

    let written = generate_uint(top + 1);
    assert_eq!(written.len(), width + 1);
    assert!(!written[0]);
    assert!(written[1]);
    assert!(written[width]);
    assert!(written[2..width].iter().all(|bit| !bit));
}

#[test]
fn generate_uint_is_read_back_as_the_number() {
    for value in 0usize..2000 {
        let read = generate_uint(value).iter().fold(0usize, |acc, bit| 2 * acc + *bit as usize);
        assert_eq!(read, value);
    }
}

#[test]
fn minted_identifiers_are_pairwise_distinct() {
    let mut counter = UidCounter::new();
    let mut ids = Vec::new();
    let mut written = Vec::new();
    for _ in 0..200 {
        let id = counter.mint().unwrap();
        written.push(generate_uint(id));
        ids.push(id);
    }
    assert_eq!(ids, (0usize..200).collect::<Vec<_>>());
    for i in 0..ids.len() {
        for j in 0..i {
            assert_ne!(ids[i], ids[j]);
            assert_ne!(written[i], written[j]);
        }
    }
}

#[test]
fn impl_label_with_defaults() {
    let mut counter = UidCounter::new();
    let opts = LabelOptions::<String, String, String>::parse(vec![]);
    let out = impl_label(opts, "Label3", &mut counter).unwrap();
    assert_eq!(out.name, "Label3");
    assert!(matches!(out.name_str, NameStr::Stringify(ref own) if own == "Label3"));
    assert_eq!(out.id, 0);
    assert_eq!(out.id_ty, bits(""));
    assert!(matches!(out.assoc_type, AssocTypeDef::Unit));
    assert_eq!(out.dummy_const, "_IMPL_LABEL_FOR_Label3");
    assert!(matches!(out.use_lhlist, UseLhlist::ExternCrate));
}

#[test]
fn label_with_options_takes_the_next_identifier() {
    let mut counter = UidCounter::new();
    for _ in 0..5 {
        counter.mint();
    }
    let out = label(
        vec![
            Meta::CustomName("\"My Label\"".to_string()),
            Meta::AssocType("u16".to_string()),
            Meta::CratePath("crate".to_string()),
        ],
        "MyLabel",
        &mut counter,
    )
    .unwrap();
    assert_eq!(out.name, "MyLabel");
    assert!(matches!(out.name_str, NameStr::Custom(ref custom) if custom == "\"My Label\""));
    assert_eq!(out.id, 5);
    assert_eq!(out.id_ty, bits("0101"));
    assert!(matches!(out.assoc_type, AssocTypeDef::Given(ref ty) if ty == "u16"));
    assert_eq!(out.dummy_const, "_IMPL_LABEL_FOR_MyLabel");
    assert!(matches!(out.use_lhlist, UseLhlist::Path(ref path) if path == "crate"));

    let next = label(Vec::<Meta>::new(), "Other", &mut counter).unwrap();
    assert_eq!(next.id, 6);
    assert_eq!(next.id_ty, bits("0110"));
    assert_eq!(counter.mint(), Some(7));
}

#[test]
fn counter_stops_at_the_largest_number() {
    let mut counter = UidCounter::resume(usize::MAX - 1);
    assert_eq!(counter.mint(), Some(usize::MAX - 1));
    assert_eq!(counter.mint(), None);
    assert_eq!(counter.mint(), None);

    let opts = LabelOptions::<String, String, String>::parse(vec![]);
    assert!(impl_label(opts, "Late", &mut counter).is_none());
    assert!(label(Vec::<Meta>::new(), "Later", &mut counter).is_none());
}

#[test]
fn counter_resumes_behind_the_identifiers_given_out() {
    let mut counter = UidCounter::resume(41);
    assert_eq!(counter.mint(), Some(41));
    assert_eq!(counter.mint(), Some(42));
}
