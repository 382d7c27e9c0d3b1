use imsequencer::geometry::CanvasRegion;
use imsequencer::geometry::ContentRegion;
use imsequencer::geometry::LayoutConstants;
use imsequencer::layout::compute_layout;
use imsequencer::layout::LayoutInput;
use imsequencer::model::Sequencer;
use imsequencer::model::SequencerModel;
use imsequencer::options;
use imsequencer::options::SequencerOptions;
use imsequencer::searchbar::SearchContaining;
use imsequencer::searchbar::SearchType;
use imsequencer::searchbar::SearchWholeWord;
use imsequencer::searchbar::Searchbar;
use imsequencer::style::SequencerStyle;

#[test]
fn style_default_palette() {
    let s = SequencerStyle::default();
    assert_eq!(s.get_header_color(), 0xffff0000);
    assert_eq!(s.get_bg_color(), 0xff242424);
    assert_eq!(s.get_top_color(), 0xff3d3837);
    assert_eq!(s.get_head_tick_color(), 0xFF606060);
    assert_eq!(s.get_body_tick_color(), 0x30606060);
    assert_eq!(s.get_frame_num_color(), 0xFFBBBBBB);
    assert_eq!(s.get_slot_color(), [0xff3a3636, 0xff413d3d]);
}

#[test]
fn style_builder_setters_replace_one_color_each() {
    let s = SequencerStyle::default()
        .set_header_color(1)
        .set_bg_color(2)
        .set_top_color(3)
        .set_head_tick_color(4)
        .set_body_tick_color(5)
        .set_frame_num_color(6)
        .set_slot_color([7, 8]);
    assert_eq!(s.get_header_color(), 1);
    assert_eq!(s.get_bg_color(), 2);
    assert_eq!(s.get_top_color(), 3);
    assert_eq!(s.get_head_tick_color(), 4);
    assert_eq!(s.get_body_tick_color(), 5);
    assert_eq!(s.get_frame_num_color(), 6);
    assert_eq!(s.get_slot_color(), [7, 8]);
    // an untouched copy keeps the stock palette
    assert_eq!(SequencerStyle::default().get_bg_color(), 0xff242424);
}

#[test]
fn options_check_presence_only() {
    let f = SequencerOptions::from_bits(options::EDIT_START_END | options::ADD);
    assert!(f.contains(options::ADD));
    assert!(f.contains(options::EDIT_START_END));
    assert!(f.contains(options::EDIT_START_END | options::ADD));
    assert!(!f.contains(options::DELETE));
    assert!(!f.contains(options::ADD | options::DELETE));
    assert!(!SequencerOptions::empty().contains(options::EDIT_NONE));
    let g = SequencerOptions::empty().with(options::COPY_PASTE);
    assert!(g.contains(options::COPY_PASTE));
}

#[test]
fn model_feeds_the_engine_through_the_trait() {
    let style = SequencerStyle::default();
    let mut model = SequencerModel::new(0, 9, 2, style);
    assert_eq!(model.get_frame_min(), 0);
    assert_eq!(model.get_frame_max(), 9);
    assert_eq!(model.get_item_count(), 2);
    assert!(!model.get_focused());
    model.set_focused(true);
    assert!(model.get_focused());
    model.set_frame_range(3, 97);
    model.set_item_count(5);
    assert_eq!(model.get_frame_max(), 97);
    assert_eq!(model.get_item_count(), 5);

    let canvas = CanvasRegion { x: 0, y: 0, width: 400, height: 300 };
    let content = ContentRegion { min_x: 0, min_y: 20, max_x: 400, max_y: 300 };
    let constants = LayoutConstants::default();
    let via_trait = model.draw_primitives(canvas, content, constants, SequencerOptions::empty());
    let inp = LayoutInput {
        frame_min: 3,
        frame_max: 97,
        item_count: 5,
        style,
        canvas,
        content,
        constants,
    };
    let direct = compute_layout(&inp, SequencerOptions::empty());
    assert_eq!(via_trait, direct);
}

#[test]
fn containing_search_finds_substrings() {
    let s = SearchContaining::new();
    assert_eq!(s.get_name(), "Contains");
    assert!(s.search_matches("hello world", "lo w"));
    assert!(s.search_matches("hello world", "hello world"));
    assert!(s.search_matches("hello world", ""));
    assert!(!s.search_matches("hello", "world"));
    assert!(!s.search_matches("", "a"));
}

#[test]
fn whole_word_search_requires_exact_equality() {
    let s = SearchWholeWord::new();
    assert_eq!(s.get_name(), "Whole Word");
    assert!(s.search_matches("frame", "frame"));
    assert!(!s.search_matches("frames", "frame"));
    assert!(!s.search_matches("frame", "frames"));
    assert!(s.search_matches("", ""));
}

#[test]
fn search_update_is_inert_for_plain_searches() {
    let mut c = SearchContaining::new();
    let mut w = SearchWholeWord::new();
    c.update("new query");
    w.update("new query");
    assert!(c.search_matches("new query text", "query"));
    assert!(w.search_matches("old", "old"));
}

#[test]
fn searchbar_tracks_selection_by_index() {
    let mut bar = Searchbar::new(String::from("Search"), true);
    assert_eq!(bar.get_query(), "");
    assert_eq!(bar.label, "Search");
    assert!(bar.show_label);
    assert_eq!(bar.type_selected, 0);
    bar.select_type(1);
    assert_eq!(bar.type_selected, 1);
    bar.set_query(String::from("needle"));
    assert_eq!(bar.get_query(), "needle");
    assert_eq!(bar.type_selected, 1);
}
