use tinic::option_file::{parse_option_file, serialize_option_file, OptionEntry};
use tinic::options::{
    OptionManager, RawOptionCategory, RawOptionDefinition, RawOptionValue, RawOptionsV2,
    RawOptionsV2Intl,
};

fn value(v: &str, label: Option<&str>) -> RawOptionValue {
    RawOptionValue { value: Some(v.to_string()), label: label.map(|l| l.to_string()) }
}

fn definition(key: Option<&str>, default: &str, values: Vec<RawOptionValue>) -> RawOptionDefinition {
    RawOptionDefinition {
        key: key.map(|k| k.to_string()),
        desc: Some(format!("desc of {}", key.unwrap_or(""))),
        desc_categorized: None,
        info: Some("info".to_string()),
        info_categorized: None,
        category_key: Some("video".to_string()),
        values,
        default_value: Some(default.to_string()),
    }
}

fn declared() -> RawOptionsV2Intl {
    RawOptionsV2Intl {
        us: RawOptionsV2 {
            definitions: vec![
                definition(
                    Some("core_region"),
                    "auto",
                    vec![value("auto", Some("Auto")), value("ntsc", Some("NTSC")), value("pal", Some("PAL"))],
                ),
                definition(
                    Some("core_frameskip"),
                    "off",
                    vec![value("off", Some("Off")), value("on", Some("On")), value("hidden", None)],
                ),
                definition(None, "x", vec![]),
                definition(Some("never_read"), "a", vec![value("a", Some("A"))]),
            ],
            categories: vec![
                RawOptionCategory {
                    key: Some("video".to_string()),
                    desc: Some("Video".to_string()),
                    info: None,
                },
                RawOptionCategory { key: None, desc: None, info: None },
                RawOptionCategory { key: Some("audio".to_string()), desc: None, info: None },
            ],
        },
        local: None,
    }
}

fn manager() -> OptionManager {
    let mut m = OptionManager::new("opts", "snes9x".to_string());
    m.convert_option_v2_intl(&declared());
    m
}

#[test]
fn new_manager_is_empty_and_names_its_file() {
    let m = OptionManager::new("opts", "snes9x".to_string());
    assert_eq!(m.file_path, "opts/snes9x.opt");
    assert!(m.opts.is_empty());
    assert!(m.categories.is_empty());
    assert_eq!(m.updated_count, 0);
}

#[test]
fn declared_options_stop_at_first_without_key() {
    let m = manager();
    assert_eq!(m.opts.len(), 2);
    assert_eq!(m.opts[0].key, "core_region");
    assert_eq!(m.opts[0].selected, "auto");
    assert_eq!(m.opts[0].default_value, "auto");
    assert!(m.opts[0].visibility);
    assert!(!m.opts[0].need_update);
    assert_eq!(m.opts[0].values.len(), 3);
    assert_eq!(m.opts[0].desc, "desc of core_region");
    assert_eq!(m.opts[0].desc_categorized, "");
    // a value without a label is not kept
    assert_eq!(m.opts[1].values.len(), 2);
    assert_eq!(m.opts[1].values[1].value, "on");
    assert_eq!(m.opts[1].values[1].label, "On");
    assert_eq!(m.categories.len(), 1);
    assert_eq!(m.categories[0].key, "video");
    assert_eq!(m.categories[0].desc, "Video");
    assert_eq!(m.categories[0].info, "");
}

#[test]
fn local_language_is_preferred() {
    let mut intl = declared();
    intl.local = Some(RawOptionsV2 {
        definitions: vec![definition(Some("local_only"), "x", vec![value("x", Some("X"))])],
        categories: vec![],
    });
    let mut m = OptionManager::new("opts", "core".to_string());
    m.convert_option_v2_intl(&intl);
    assert_eq!(m.opts.len(), 1);
    assert_eq!(m.opts[0].key, "local_only");
    assert!(m.categories.is_empty());
}

#[test]
fn pick_then_read_gives_the_pick_once() {
    let mut m = manager();
    m.change_value_selected("core_region", "pal");
    assert_eq!(m.updated_count, 1);
    assert!(m.opts[0].need_update);
    assert_eq!(m.get_opt_value("core_region"), Some("pal".to_string()));
    assert_eq!(m.updated_count, 0);
    assert_eq!(m.get_opt_value("core_region"), None);
    assert_eq!(m.opts[0].selected, "pal");
}

#[test]
fn value_not_accepted_changes_nothing() {
    let mut m = manager();
    m.change_value_selected("core_region", "secam");
    assert_eq!(m.updated_count, 0);
    assert_eq!(m.opts[0].selected, "auto");
    // a value without a label was dropped, so it is not accepted either
    m.change_value_selected("core_frameskip", "hidden");
    assert_eq!(m.opts[1].selected, "off");
    m.change_value_selected("no_such_key", "on");
    assert_eq!(m.updated_count, 0);
}

#[test]
fn second_pick_before_read_is_ignored() {
    let mut m = manager();
    m.change_value_selected("core_region", "pal");
    m.change_value_selected("core_region", "ntsc");
    assert_eq!(m.updated_count, 1);
    assert_eq!(m.opts[0].selected, "pal");
}

#[test]
fn reading_unknown_or_unpicked_key_gives_nothing() {
    let mut m = manager();
    assert_eq!(m.get_opt_value("core_region"), None);
    assert_eq!(m.get_opt_value("missing"), None);
}

#[test]
fn hiding_drops_pending_pick() {
    let mut m = manager();
    m.change_value_selected("core_frameskip", "on");
    assert_eq!(m.updated_count, 1);
    m.change_visibility("core_frameskip", false);
    assert!(!m.opts[1].visibility);
    assert!(!m.opts[1].need_update);
    assert_eq!(m.updated_count, 0);
    assert_eq!(m.get_opt_value("core_frameskip"), None);
    m.change_visibility("core_frameskip", true);
    assert!(m.opts[1].visibility);
}

#[test]
fn showing_keeps_pending_pick() {
    let mut m = manager();
    m.change_value_selected("core_region", "ntsc");
    m.change_visibility("core_region", true);
    assert_eq!(m.updated_count, 1);
    assert_eq!(m.get_opt_value("core_region"), Some("ntsc".to_string()));
}

#[test]
fn update_opt_returns_file_with_all_picks() {
    let mut m = manager();
    let file = m.update_opt("core_region", "ntsc");
    assert_eq!(file, "core_region=ntsc\ncore_frameskip=off\n");
    assert_eq!(m.updated_count, 1);
}

#[test]
fn reload_without_file_gives_defaults_to_write() {
    let mut m = manager();
    let file = m.try_reload_pref_option(None);
    assert_eq!(file, Some("core_region=auto\ncore_frameskip=off\n".to_string()));
    assert_eq!(m.updated_count, 0);
}

#[test]
fn reload_with_file_applies_picks() {
    let mut m = manager();
    let file = m.try_reload_pref_option(Some("core_region=pal\ncore_frameskip=on\n"));
    assert_eq!(file, None);
    assert_eq!(m.opts[0].selected, "pal");
    assert_eq!(m.opts[1].selected, "on");
    assert_eq!(m.updated_count, 2);
}

#[test]
fn load_all_option_in_file_applies_in_order() {
    let mut m = manager();
    let entries = vec![
        OptionEntry { key: "core_region".to_string(), value: "ntsc".to_string() },
        OptionEntry { key: "core_region".to_string(), value: "pal".to_string() },
    ];
    m.load_all_option_in_file(&entries);
    // the second pick comes while the first is still unread
    assert_eq!(m.opts[0].selected, "ntsc");
    assert_eq!(m.updated_count, 1);
}

#[test]
fn parse_reads_key_and_first_word() {
    let entries = parse_option_file("a=1\nb=  two words\nc=x=y\n\nd=ignored\n").unwrap();
    assert_eq!(entries.len(), 3);
    assert_eq!(entries[0].key, "a");
    assert_eq!(entries[0].value, "1");
    assert_eq!(entries[1].key, "b");
    assert_eq!(entries[1].value, "two");
    assert_eq!(entries[2].key, "c");
    assert_eq!(entries[2].value, "x");
}

#[test]
fn parse_empty_file_has_no_entries() {
    assert_eq!(parse_option_file("").unwrap().len(), 0);
}

#[test]
fn parse_refuses_line_without_equals() {
    assert!(parse_option_file("a=1\nbroken\n").is_none());
}

#[test]
fn parse_refuses_line_without_value() {
    assert!(parse_option_file("a=   \n").is_none());
    assert!(parse_option_file("a==1\n").is_none());
}

#[test]
fn serialize_writes_one_line_per_entry() {
    let entries = vec![
        OptionEntry { key: "k1".to_string(), value: "v1".to_string() },
        OptionEntry { key: "k2".to_string(), value: "v2".to_string() },
    ];
    assert_eq!(serialize_option_file(&entries), "k1=v1\nk2=v2\n");
    assert_eq!(serialize_option_file(&vec![]), "");
}

#[test]
fn written_file_reads_back() {
    let entries = vec![
        OptionEntry { key: "video scale".to_string(), value: "2x".to_string() },
        OptionEntry { key: "audio".to_string(), value: "on".to_string() },
    ];
    let back = parse_option_file(&serialize_option_file(&entries)).unwrap();
    assert_eq!(back.len(), 2);
    assert_eq!(back[0].key, "video scale");
    assert_eq!(back[0].value, "2x");
    assert_eq!(back[1].key, "audio");
    assert_eq!(back[1].value, "on");
}

#[test]
fn saved_picks_read_back() {
    let mut m = manager();
    let file = m.update_opt("core_frameskip", "on");
    let back = parse_option_file(&file).unwrap();
    assert_eq!(back.len(), m.opts.len());
    for (entry, opt) in back.iter().zip(m.opts.iter()) {
        assert_eq!(entry.key, opt.key);
        assert_eq!(entry.value, opt.selected);
    }
}

#[test]
fn reload_restores_saved_picks() {
    let mut first = manager();
    first.update_opt("core_region", "pal");
    let file = first.update_opt("core_frameskip", "on");
    let mut second = manager();
    assert_eq!(second.try_reload_pref_option(Some(&file)), None);
    for (a, b) in first.opts.iter().zip(second.opts.iter()) {
        assert_eq!(a.key, b.key);
        assert_eq!(a.selected, b.selected);
    }
    assert_eq!(second.updated_count, 2);
}

#[test]
fn at_most_ninety_definitions_are_read() {
    let defs: Vec<RawOptionDefinition> = (0..95)
        .map(|i| definition(Some(&format!("opt{}", i)), "a", vec![value("a", Some("A"))]))
        .collect();
    let intl = RawOptionsV2Intl { us: RawOptionsV2 { definitions: defs, categories: vec![] }, local: None };
    let mut m = OptionManager::new("opts", "core".to_string());
    m.convert_option_v2_intl(&intl);
    assert_eq!(m.opts.len(), 90);
    assert_eq!(m.opts[89].key, "opt89");
}
