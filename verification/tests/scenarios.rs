use uvie::{InputMethod, UltraFastViEngine};

fn telex(seq: &str) -> String {
    let mut engine = UltraFastViEngine::new();
    let mut out = String::new();
    for c in seq.chars() {
        out = engine.feed(c).to_string();
    }
    out
}

fn vni(seq: &str) -> String {
    let mut engine = UltraFastViEngine::new();
    engine.set_input_method(InputMethod::Vni);
    let mut out = String::new();
    for c in seq.chars() {
        out = engine.feed(c).to_string();
    }
    out
}

#[test]
fn digraph_resolution() {
    assert_eq!(telex("aa"), "â");
}

#[test]
fn modifier_then_tone() {
    assert_eq!(telex("aas"), "ấ");
}

#[test]
fn horn_pair_with_tone() {
    assert_eq!(telex("huows"), "hướ");
}

#[test]
fn open_pair_without_coda() {
    assert_eq!(telex("hoaf"), "hoà");
}

#[test]
fn open_pair_with_coda() {
    assert_eq!(telex("hoans"), "hoán");
}

#[test]
fn qu_prefix_puts_tone_on_next_vowel() {
    assert_eq!(telex("quas"), "quá");
    assert_eq!(telex("quir"), "quỉ");
}

#[test]
fn gi_prefix_puts_tone_on_next_vowel() {
    assert_eq!(telex("gias"), "giá");
}

#[test]
fn ui_prefers_first_vowel() {
    assert_eq!(telex("tuis"), "túi");
    assert_eq!(telex("guwir"), "gửi");
}

#[test]
fn modified_vowel_draws_the_tone() {
    assert_eq!(telex("mowis"), "mới");
    assert_eq!(telex("toois"), "tối");
    assert_eq!(telex("neeus"), "nếu");
    assert_eq!(telex("ddaaus"), "đấu");
}

#[test]
fn three_vowels_put_tone_on_second() {
    assert_eq!(telex("khuyas"), "khuýa");
}

#[test]
fn foreign_word_is_shown_as_typed() {
    assert_eq!(telex("clear"), "clear");
    assert_eq!(telex("street"), "street");
    assert_eq!(telex("house"), "house");
}

#[test]
fn ngh_onset_is_valid() {
    assert_eq!(telex("nghees"), "nghế");
}

#[test]
fn three_other_consonants_are_foreign() {
    assert_eq!(telex("schos"), "schos");
}

#[test]
fn clear_key_removes_tone() {
    assert_eq!(telex("asz"), "a");
}

#[test]
fn double_tap_cancels_tone() {
    assert_eq!(telex("ass"), "as");
}

#[test]
fn cancellation_is_sticky() {
    assert_eq!(telex("assf"), "asf");
    assert_eq!(telex("asfss"), "as");
}

#[test]
fn triple_collapses() {
    assert_eq!(telex("ddd"), "d");
    assert_eq!(telex("aaaa"), "â");
}

#[test]
fn vni_modifier() {
    assert_eq!(vni("a6"), "â");
}

#[test]
fn vni_modifier_and_tone() {
    assert_eq!(vni("o71"), "ớ");
}

#[test]
fn vni_does_not_bubble() {
    assert_eq!(vni("hana"), "hana");
    assert_eq!(vni("hotw"), "hotw");
}

#[test]
fn late_modifier_joins_its_letter() {
    assert_eq!(telex("hana"), "hân");
    assert_eq!(telex("hotw"), "hơt");
    assert_eq!(telex("dod"), "đo");
}

#[test]
fn double_w_is_a_letter() {
    assert_eq!(telex("ww"), "w");
    assert_eq!(telex("w"), "ư");
}

#[test]
fn qu_keeps_its_glide_before_horn() {
    assert_eq!(telex("quow"), "quơ");
}

#[test]
fn r_after_cluster_lead_is_a_letter() {
    assert_eq!(telex("tra"), "tra");
    assert_eq!(telex("afr"), "àr");
}

#[test]
fn tone_key_without_vowel_is_shown_as_typed() {
    assert_eq!(telex("bx"), "bx");
    assert_eq!(telex("txt"), "txt");
    assert_eq!(telex("bz"), "bz");
}

#[test]
fn stroke_survives_a_tone_key() {
    assert_eq!(telex("ddx"), "đ");
}

#[test]
fn same_keys_give_same_text() {
    let keys = "nguyeenx huows clear ass";
    let mut first = UltraFastViEngine::new();
    let mut second = UltraFastViEngine::new();
    second.feed('x');
    second.feed(' ');
    for c in keys.chars() {
        let a = first.feed(c).to_string();
        let b = second.feed(c).to_string();
        assert_eq!(a, b);
    }
    assert_eq!(first.output(), "as");
}

#[test]
fn whitespace_delimits_syllables() {
    let mut engine = UltraFastViEngine::new();
    engine.feed('a');
    assert_eq!(engine.feed('s'), "á");
    assert_eq!(engine.feed(' '), "á ");
    assert_eq!(engine.feed('o'), "o");
    assert_eq!(engine.feed('f'), "ò");
    assert_eq!(engine.feed('\n'), "ò\n");
    assert_eq!(engine.feed('\t'), "\t");
    assert_eq!(telex("of"), "ò");
}

#[test]
fn clear_key_changes_nothing_without_tone() {
    assert_eq!(telex("hoaz"), telex("hoa"));
    assert_eq!(telex("hoaz"), "hoa");
    assert_eq!(telex("muwaz"), "mưa");
    assert_eq!(vni("hoa0"), "hoa");
}

#[test]
fn last_tone_key_wins() {
    assert_eq!(telex("asfx"), "ã");
    assert_eq!(telex("asfxj"), "ạ");
    assert_eq!(telex("esfs"), "é");
    assert_eq!(vni("a123"), "ả");
    assert_eq!(vni("a11"), "a1");
}

#[test]
fn plain_letters_pass_through() {
    assert_eq!(telex("blink"), "blink");
    assert_eq!(telex("hm"), "hm");
    assert_eq!(telex("tin"), "tin");
    assert_eq!(vni("blink"), "blink");
}

#[test]
fn capital_letters_are_lowered() {
    assert_eq!(telex("AS"), "á");
    assert_eq!(telex("Hoaf"), "hoà");
}

#[test]
fn other_characters_pass_through() {
    assert_eq!(telex("é"), "é");
    assert_eq!(telex("?"), "?");
    assert_eq!(telex("a-"), "a-");
}

#[test]
fn full_buffer_drops_further_keys() {
    let mut engine = UltraFastViEngine::new();
    let mut out = String::new();
    for _ in 0..40 {
        out = engine.feed('b').to_string();
    }
    assert_eq!(out, "b".repeat(32));
    assert_eq!(engine.feed(' '), format!("{} ", "b".repeat(32)));
    assert_eq!(engine.feed('a'), "a");
}

#[test]
fn full_buffer_drops_a_wide_key_whole() {
    let mut engine = UltraFastViEngine::new();
    for _ in 0..31 {
        engine.feed('b');
    }
    assert_eq!(engine.feed('é'), "b".repeat(31));
    assert_eq!(engine.feed('c'), format!("{}c", "b".repeat(31)));
}

#[test]
fn longest_rendering_fits_with_wide_whitespace() {
    let mut engine = UltraFastViEngine::new();
    for _ in 0..16 {
        engine.feed('\u{1ea5}');
    }
    let shown = engine.feed('\u{3000}').to_string();
    assert_eq!(shown.chars().count(), 11);
    assert_eq!(shown, format!("{}\u{3000}", "\u{1ea5}".repeat(10)));
}

#[test]
fn clear_forgets_keys_and_text() {
    let mut engine = UltraFastViEngine::new();
    engine.feed('a');
    engine.feed('a');
    assert_eq!(engine.output(), "â");
    engine.clear();
    assert_eq!(engine.output(), "");
    assert_eq!(engine.feed('s'), "s");
}

#[test]
fn input_method_is_kept() {
    let mut engine = UltraFastViEngine::new();
    assert!(engine.input_method() == InputMethod::Telex);
    engine.feed('a');
    engine.set_input_method(InputMethod::Vni);
    assert!(engine.input_method() == InputMethod::Vni);
    assert_eq!(engine.output(), "a");
    assert_eq!(engine.feed('6'), "â");
    engine.set_input_method(InputMethod::Telex);
    assert_eq!(engine.feed('s'), "á6");
}

#[test]
fn render_str_shows_typed_keys_again() {
    let mut engine = UltraFastViEngine::new();
    engine.feed('o');
    engine.feed('7');
    assert_eq!(engine.output(), "o7");
    engine.set_input_method(InputMethod::Vni);
    engine.render_str();
    assert_eq!(engine.output(), "ơ");
}

#[test]
fn flush_and_type_key_are_the_two_halves_of_feed() {
    let mut engine = UltraFastViEngine::new();
    engine.type_key('A');
    engine.type_key('a');
    assert_eq!(engine.output(), "â");
    engine.flush('x');
    assert_eq!(engine.output(), "âx");
    engine.type_key(' ');
    assert_eq!(engine.output(), " ");
}
