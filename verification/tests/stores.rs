use chime_bot::chimes::{file_name, parse_user_id, playable, ChimeFile, ChimeSinkError, FileChimeSink};
use chime_bot::commands::{chime_command, OptionKind};
use chime_bot::data::{
    create_table_statement, from_stored_id, restriction, select_statement, to_stored_id,
    upsert_statement, GuildDetails,
};
use chime_bot::localizable::{describe, same_text, Localizable, Localization};
use chime_bot::nameable::Nameable;

fn file(stem: &str, path: &str) -> ChimeFile {
    ChimeFile { stem: stem.to_string(), path: path.to_string() }
}

#[test]
fn stems_parse_as_user_ids() {
    assert_eq!(parse_user_id("0"), Some(0));
    assert_eq!(parse_user_id("42"), Some(42));
    assert_eq!(parse_user_id("+42"), Some(42));
    assert_eq!(parse_user_id("007"), Some(7));
    assert_eq!(parse_user_id("18446744073709551615"), Some(u64::MAX));
    assert_eq!(parse_user_id("18446744073709551616"), None);
    assert_eq!(parse_user_id("99999999999999999999999"), None);
    assert_eq!(parse_user_id(""), None);
    assert_eq!(parse_user_id("+"), None);
    assert_eq!(parse_user_id("-1"), None);
    assert_eq!(parse_user_id("++1"), None);
    assert_eq!(parse_user_id("12a"), None);
    assert_eq!(parse_user_id(" 12"), None);
    assert_eq!(parse_user_id("١٢"), None);
}

#[test]
fn stems_parse_as_the_standard_library_does() {
    for s in ["0", "42", "+42", "007", "", "+", "-1", "12a", "18446744073709551615",
        "18446744073709551616", "1_000", "0x10", "+0"]
    {
        assert_eq!(parse_user_id(s), s.parse::<u64>().ok());
    }
}

#[test]
fn file_names_read_back() {
    assert_eq!(file_name(0), "0");
    assert_eq!(file_name(42), "42");
    assert_eq!(file_name(u64::MAX), "18446744073709551615");
    for id in [0u64, 9, 10, 12345, u64::MAX] {
        assert_eq!(parse_user_id(&file_name(id)), Some(id));
    }
}

#[test]
fn listing_fills_the_record() {
    let sink = FileChimeSink::new(
        "/srv/chimes".to_string(),
        vec![file("12", "/srv/chimes/12.mp3"), file("notes", "/srv/chimes/notes.txt"),
            file("7", "/srv/chimes/7")],
    );
    assert_eq!(sink.directory(), "/srv/chimes");
    assert!(sink.has_data(12));
    assert!(sink.has_data(7));
    assert!(!sink.has_data(8));
    assert_eq!(sink.get_input(12), Ok(&"/srv/chimes/12.mp3".to_string()));
    assert_eq!(sink.get_input(8), Err(ChimeSinkError::DataNotAvailable));
}

#[test]
fn later_file_for_a_user_counts() {
    let sink = FileChimeSink::new(
        "d".to_string(),
        vec![file("12", "d/12.mp3"), file("3", "d/3"), file("12", "d/12.ogg")],
    );
    assert_eq!(sink.get_input(12), Ok(&"d/12.ogg".to_string()));
    assert_eq!(sink.get_input(3), Ok(&"d/3".to_string()));
}

#[test]
fn save_shows_in_later_lookups() {
    let mut sink = FileChimeSink::new("d".to_string(), vec![]);
    assert!(!sink.has_data(5));
    assert_eq!(sink.save_data(5, "d/5".to_string(), true), Ok(()));
    assert!(sink.has_data(5));
    assert_eq!(sink.get_input(5), Ok(&"d/5".to_string()));
}

#[test]
fn failed_save_leaves_the_user_without_a_chime() {
    let mut sink = FileChimeSink::new("d".to_string(), vec![file("5", "d/old"), file("7", "d/7")]);
    assert_eq!(sink.save_data(5, "d/5".to_string(), false), Err(ChimeSinkError::SaveError));
    assert!(!sink.has_data(5));
    assert_eq!(sink.get_input(5), Err(ChimeSinkError::DataNotAvailable));
    assert_eq!(sink.get_input(7), Ok(&"d/7".to_string()));
    assert_eq!(sink.save_data(6, "d/6".to_string(), false), Err(ChimeSinkError::SaveError));
    assert!(!sink.has_data(6));
    assert!(sink.has_data(7));
}

#[test]
fn save_over_a_previous_chime_replaces_it() {
    let mut sink = FileChimeSink::new("d".to_string(), vec![file("5", "d/old")]);
    assert_eq!(sink.save_data(5, "d/5".to_string(), true), Ok(()));
    assert_eq!(sink.get_input(5), Ok(&"d/5".to_string()));
}

#[test]
fn clear_strikes_the_user_and_names_the_file() {
    let mut sink = FileChimeSink::new("d".to_string(), vec![file("5", "d/5"), file("6", "d/6")]);
    assert_eq!(sink.clear_data(5), Some("d/5".to_string()));
    assert!(!sink.has_data(5));
    assert!(sink.has_data(6));
    assert_eq!(sink.clear_data(5), None);
    assert_eq!(sink.get_input(5), Err(ChimeSinkError::DataNotAvailable));
}

#[test]
fn undecodable_chime_is_a_playback_error() {
    assert_eq!(playable(true), Ok(()));
    assert_eq!(playable(false), Err(ChimeSinkError::Playback));
}

#[test]
fn guild_details_default_is_empty() {
    assert_eq!(GuildDetails::default(), GuildDetails { id: 0, blocked_role_id: None });
}

#[test]
fn schema_and_statements() {
    assert_eq!(GuildDetails::get_schema(), "id BIGINT PRIMARY KEY, blocked_role_id BIGINT");
    assert_eq!(
        create_table_statement("GuildDetails"),
        "CREATE TABLE IF NOT EXISTS GuildDetails (id BIGINT PRIMARY KEY, blocked_role_id BIGINT)"
    );
    assert_eq!(
        select_statement("GuildDetails"),
        "SELECT id, blocked_role_id FROM GuildDetails WHERE id = $1::BIGINT"
    );
    assert_eq!(
        upsert_statement("G"),
        "INSERT INTO G (id,blocked_role_id) VALUES ($1::BIGINT, $2::BIGINT) ON CONFLICT (id) DO UPDATE SET blocked_role_id = EXCLUDED.blocked_role_id"
    );
}

#[test]
fn ids_keep_their_bits_in_the_database() {
    for id in [0u64, 1, i64::MAX as u64, i64::MAX as u64 + 1, u64::MAX] {
        assert_eq!(to_stored_id(id), id as i64);
        assert_eq!(from_stored_id(to_stored_id(id)), id);
    }
    for v in [0i64, -1, i64::MIN, i64::MAX] {
        assert_eq!(from_stored_id(v), v as u64);
        assert_eq!(to_stored_id(from_stored_id(v)), v);
    }
}

#[test]
fn rows_and_details() {
    let d = GuildDetails::from_row(-1, Some(5));
    assert_eq!(d, GuildDetails { id: u64::MAX, blocked_role_id: Some(5) });
    assert_eq!(d.to_row(), (-1, Some(5)));
    let d = GuildDetails::from_row(9, None);
    assert_eq!(d, GuildDetails { id: 9, blocked_role_id: None });
    assert_eq!(d.to_row(), (9, None));
}

#[test]
fn restriction_comes_from_the_record() {
    assert_eq!(restriction(None), None);
    assert_eq!(restriction(Some(GuildDetails { id: 1, blocked_role_id: None })), None);
    assert_eq!(restriction(Some(GuildDetails { id: 1, blocked_role_id: Some(4) })), Some(4));
}

#[test]
fn forbidding_sets_guild_and_role() {
    let fresh = GuildDetails::restricted_to(None, 3, 4);
    assert_eq!(fresh, GuildDetails { id: 3, blocked_role_id: Some(4) });
    let had = Some(GuildDetails { id: 3, blocked_role_id: Some(1) });
    assert_eq!(GuildDetails::restricted_to(had, 3, 4), fresh);
}

#[test]
fn command_tree_has_its_shape() {
    let c = chime_command("chime");
    assert_eq!(c.name, "chime");
    assert_eq!(c.key, "base");
    assert_eq!(c.options.len(), 2);
    let clear = &c.options[0];
    assert_eq!((clear.name.as_str(), clear.key.as_str()), ("clear", "base-clear"));
    assert_eq!(clear.kind, OptionKind::SubCommand);
    assert!(clear.options.is_empty());
    let set = &c.options[1];
    assert_eq!((set.name.as_str(), set.key.as_str()), ("set", "base-set"));
    assert_eq!(set.kind, OptionKind::SubCommandGroup);
    let file = &set.options[0];
    assert_eq!((file.name.as_str(), file.key.as_str()), ("file", "base-set-file"));
    assert_eq!(file.kind, OptionKind::SubCommand);
    let attachment = &file.options[0];
    assert_eq!(attachment.name, "attachment");
    assert_eq!(attachment.key, "base-set-file-attachment");
    assert_eq!(attachment.kind, OptionKind::Attachment);
    assert!(attachment.required);
    let url = &set.options[1];
    assert_eq!((url.name.as_str(), url.key.as_str()), ("url", "base-set-url"));
    let link = &url.options[0];
    assert_eq!((link.name.as_str(), link.key.as_str()), ("link", "base-set-url-link"));
    assert_eq!(link.kind, OptionKind::Text);
    assert!(link.required);
    assert!(!set.required && !file.required && !url.required && !clear.required);
}

#[test]
fn naming_and_describing_chain() {
    let mut c = chime_command("chime");
    c.name("bell").localize_default("Rings").localize("de", "Klingelt");
    assert_eq!(c.name, "bell");
    assert_eq!(c.description, "Rings");
    assert_eq!(c.localized.len(), 1);
    assert_eq!(c.localized[0].locale, "de");
    assert_eq!(c.localized[0].text, "Klingelt");
    assert_eq!(c.options.len(), 2);
    let o = &mut c.options[0];
    o.name("wipe").localize_default("Wipes");
    assert_eq!(o.name, "wipe");
    assert_eq!(o.description, "Wipes");
    assert_eq!(o.key, "base-clear");
}

#[test]
fn describe_passes_over_the_default_locale() {
    let mut c = chime_command("chime");
    let texts = vec![
        Localization { locale: "de".to_string(), text: "Klingelt".to_string() },
        Localization { locale: "en-US".to_string(), text: "Rings!".to_string() },
        Localization { locale: "fr".to_string(), text: "Sonne".to_string() },
    ];
    describe(&mut c, "en-US", "Rings", &texts);
    assert_eq!(c.description, "Rings");
    let got: Vec<(&str, &str)> =
        c.localized.iter().map(|l| (l.locale.as_str(), l.text.as_str())).collect();
    assert_eq!(got, vec![("de", "Klingelt"), ("fr", "Sonne")]);
}

#[test]
fn same_text_compares_by_character() {
    assert!(same_text("", ""));
    assert!(same_text("en-US", "en-US"));
    assert!(!same_text("en-US", "en-GB"));
    assert!(!same_text("en", "en-US"));
    assert!(same_text("é", "é"));
}
