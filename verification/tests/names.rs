use kadent::file_name::{file_name_is_valid, is_blank, is_whitespace, validate_file_name};
use kadent::nodes::port_row_count;
use kadent::panel::PanelVariant;
use kadent::AddibleNodes;

#[test]
fn addible_node_names() {
    assert_eq!(AddibleNodes::Kasl.name(), "KASL Node");
    assert_eq!(AddibleNodes::Automation.name(), "Automation Node");
}

#[test]
fn addible_nodes_all_in_menu_order() {
    assert_eq!(AddibleNodes::all(), vec![AddibleNodes::Kasl, AddibleNodes::Automation]);
}

#[test]
fn panel_variants_all_listed_once() {
    let all = PanelVariant::all();
    assert_eq!(all.len(), 7);
    for (i, a) in all.iter().enumerate() {
        for (j, b) in all.iter().enumerate() {
            assert_eq!(i == j, a == b);
        }
    }
    assert_eq!(all[0], PanelVariant::Timeline);
    assert_eq!(all[6], PanelVariant::ErrorList);
}

#[test]
fn panel_variant_labels() {
    assert_eq!(PanelVariant::NodeGraph.to_string(), "Node Graph");
    assert_eq!(PanelVariant::PianoRoll.label(), "Piano Roll");
    assert_eq!(PanelVariant::CodeEditor.to_string(), "Code Editor");
    assert_eq!(PanelVariant::ErrorList.label(), "Error List");
    assert_eq!(PanelVariant::Timeline.to_string(), "Timeline");
    assert_eq!(PanelVariant::default(), PanelVariant::Timeline);
}

#[test]
fn whitespace_matches_std() {
    for c in [' ', '\t', '\n', '\r', '\u{0b}', '\u{0c}', '\u{85}', '\u{a0}', '\u{1680}', '\u{2000}', '\u{200a}', '\u{2028}', '\u{2029}', '\u{202f}', '\u{205f}', '\u{3000}', 'a', '.', '\u{200b}', '\u{feff}', '\u{180e}', '0'] {
        assert_eq!(is_whitespace(c), c.is_whitespace(), "{:?}", c);
    }
}

#[test]
fn blank_names() {
    assert!(is_blank(""));
    assert!(is_blank("  \t "));
    assert!(is_blank("\u{3000}"));
    assert!(!is_blank(" a "));
}

#[test]
fn file_names_with_separator() {
    assert!(file_name_is_valid("song.kasl", '/'));
    assert!(!file_name_is_valid("dir/song.kasl", '/'));
    assert!(file_name_is_valid("dir/song.kasl", '\\'));
    assert!(!file_name_is_valid(".hidden", '/'));
    assert!(!file_name_is_valid("   ", '/'));
    assert!(!file_name_is_valid("", '/'));
    assert!(file_name_is_valid(" spaced name ", '/'));
}

#[test]
fn validate_file_name_on_this_platform() {
    assert!(validate_file_name("synth.kasl"));
    assert!(!validate_file_name(""));
    assert!(!validate_file_name(" \t"));
    assert!(!validate_file_name(".git"));
    let with_sep = format!("a{}b", std::path::MAIN_SEPARATOR);
    assert!(!validate_file_name(&with_sep));
}

#[test]
fn valid_file_name_is_never_blank() {
    for name in ["x", " y", "z ", "a.b"] {
        if validate_file_name(name) {
            assert!(!is_blank(name));
        }
    }
}

#[test]
fn node_port_rows() {
    assert_eq!(port_row_count(0, 0), 1);
    assert_eq!(port_row_count(3, 1), 3);
    assert_eq!(port_row_count(2, 5), 5);
}
