use uvie::UltraFastViEngine;

fn type_keys(engine: &mut UltraFastViEngine, seq: &str) -> String {
    let mut out = String::new();
    for c in seq.chars() {
        out = engine.feed(c).to_string();
    }
    out
}

#[test]
fn lib_telex_modifier_basic() {
    let mut e = UltraFastViEngine::new();
    assert_eq!(type_keys(&mut e, "aa"), "â");

    let mut e = UltraFastViEngine::new();
    assert_eq!(type_keys(&mut e, "aw"), "ă");

    let mut e = UltraFastViEngine::new();
    assert_eq!(type_keys(&mut e, "ee"), "ê");

    let mut e = UltraFastViEngine::new();
    assert_eq!(type_keys(&mut e, "oo"), "ô");

    let mut e = UltraFastViEngine::new();
    assert_eq!(type_keys(&mut e, "ow"), "ơ");

    let mut e = UltraFastViEngine::new();
    assert_eq!(type_keys(&mut e, "uw"), "ư");

    let mut e = UltraFastViEngine::new();
    assert_eq!(type_keys(&mut e, "dd"), "đ");
}

#[test]
fn lib_tone_single_vowel_all_tones() {
    let mut e = UltraFastViEngine::new();
    assert_eq!(type_keys(&mut e, "as"), "á");

    let mut e = UltraFastViEngine::new();
    assert_eq!(type_keys(&mut e, "af"), "à");

    let mut e = UltraFastViEngine::new();
    assert_eq!(type_keys(&mut e, "ar"), "ả");

    let mut e = UltraFastViEngine::new();
    assert_eq!(type_keys(&mut e, "ax"), "ã");

    let mut e = UltraFastViEngine::new();
    assert_eq!(type_keys(&mut e, "aj"), "ạ");
}

#[test]
fn lib_z_key_removes_tone() {
    let mut e = UltraFastViEngine::new();
    // as -> á, z -> a
    assert_eq!(type_keys(&mut e, "asz"), "a");
    
    let mut e = UltraFastViEngine::new();
    // az -> a
    assert_eq!(type_keys(&mut e, "az"), "a");

    let mut e = UltraFastViEngine::new();
    // axz -> a
    assert_eq!(type_keys(&mut e, "axz"), "a");
}

#[test]
fn lib_toggling_triplet() {
    let mut e = UltraFastViEngine::new();
    // aaa -> a
    assert_eq!(type_keys(&mut e, "aaa"), "a");

    let mut e = UltraFastViEngine::new();
    // ddd -> d
    assert_eq!(type_keys(&mut e, "ddd"), "d");

    let mut e = UltraFastViEngine::new();
    // eee -> e
    assert_eq!(type_keys(&mut e, "eee"), "e");

     let mut e = UltraFastViEngine::new();
    // ooo -> o
    assert_eq!(type_keys(&mut e, "ooo"), "o");
}

#[test]
fn lib_tone_on_modified_vowels() {
    let mut e = UltraFastViEngine::new();
    assert_eq!(type_keys(&mut e, "aas"), "ấ");

    let mut e = UltraFastViEngine::new();
    assert_eq!(type_keys(&mut e, "awj"), "ặ");

    let mut e = UltraFastViEngine::new();
    assert_eq!(type_keys(&mut e, "ees"), "ế");

    let mut e = UltraFastViEngine::new();
    assert_eq!(type_keys(&mut e, "oos"), "ố");

    let mut e = UltraFastViEngine::new();
    assert_eq!(type_keys(&mut e, "ows"), "ớ");

    let mut e = UltraFastViEngine::new();
    assert_eq!(type_keys(&mut e, "uws"), "ứ");
}

#[test]
fn lib_greedy_tone_last_wins() {
    let mut e = UltraFastViEngine::new();
    assert_eq!(type_keys(&mut e, "asf"), "à");

    let mut e = UltraFastViEngine::new();
    assert_eq!(type_keys(&mut e, "afsj"), "ạ");
}

#[test]
fn lib_tone_placement_two_vowels_no_coda() {
    let mut e = UltraFastViEngine::new();
    assert_eq!(type_keys(&mut e, "hoas"), "hoá");

    let mut e = UltraFastViEngine::new();
    assert_eq!(type_keys(&mut e, "hoaf"), "hoà");
}

#[test]
fn lib_tone_placement_two_vowels_with_coda() {
    let mut e = UltraFastViEngine::new();
    assert_eq!(type_keys(&mut e, "hoans"), "hoán");

    let mut e = UltraFastViEngine::new();
    assert_eq!(type_keys(&mut e, "hoanj"), "hoạn");
}

#[test]
fn lib_tone_placement_three_vowels_targets_second_vowel() {
    let mut e = UltraFastViEngine::new();
    assert_eq!(type_keys(&mut e, "khuya"), "khuya");

    let mut e = UltraFastViEngine::new();
    assert_eq!(type_keys(&mut e, "khuyas"), "khuýa");
}

#[test]
fn lib_whitespace_flushes_and_resets_buffer() {
    let mut e = UltraFastViEngine::new();
    assert_eq!(type_keys(&mut e, "aas"), "ấ");
    assert_eq!(e.feed(' '), "ấ ");
    assert_eq!(type_keys(&mut e, "as"), "á");
}

#[test]
fn lib_tone_only_input_produces_empty() {
    let mut e = UltraFastViEngine::new();
    // First char is treated as consonant
    assert_eq!(type_keys(&mut e, "s"), "s");
    
    let mut e = UltraFastViEngine::new();
    assert_eq!(type_keys(&mut e, "z"), "z");
}

#[test]
fn lib_do_not_apply_to_english() {
    let mut e = UltraFastViEngine::new();
    assert_eq!(type_keys(&mut e, "clear"), "clear");
    
    let mut e = UltraFastViEngine::new();
    assert_eq!(type_keys(&mut e, "flan"), "flan");
    
    let mut e = UltraFastViEngine::new();
    assert_eq!(type_keys(&mut e, "blob"), "blob");
}

#[test]
fn lib_special_uow_combo() {
    let mut e = UltraFastViEngine::new();
    assert_eq!(type_keys(&mut e, "huow"), "hươ");
    
    let mut e = UltraFastViEngine::new();
    assert_eq!(type_keys(&mut e, "huows"), "hướ");
}

#[test]
fn lib_valid_consonant_cluster() {
     let mut e = UltraFastViEngine::new();
    assert_eq!(type_keys(&mut e, "nghe"), "nghe");
    
    let mut e = UltraFastViEngine::new();
    assert_eq!(type_keys(&mut e, "nghes"), "nghé");
    
    let mut e = UltraFastViEngine::new();
    assert_eq!(type_keys(&mut e, "nghees"), "nghế");
}

#[test]
fn lib_regression_qu_gi_placement() {
    // qu + a -> quá (tone on a)
    let mut e = UltraFastViEngine::new();
    assert_eq!(type_keys(&mut e, "quas"), "quá");

    // qu + y -> quỳ (tone on y)
    let mut e = UltraFastViEngine::new();
    assert_eq!(type_keys(&mut e, "quyf"), "quỳ");

    // qu + i -> quỉ (tone on i)
    let mut e = UltraFastViEngine::new();
    assert_eq!(type_keys(&mut e, "quir"), "quỉ");

    // gi + a -> giá (tone on a)
    let mut e = UltraFastViEngine::new();
    assert_eq!(type_keys(&mut e, "gias"), "giá");
}

#[test]
fn lib_regression_vowel_pairs() {
    // oa -> hoà (tone on a, new style)
    let mut e = UltraFastViEngine::new();
    assert_eq!(type_keys(&mut e, "hoaf"), "hoà");

    // oe -> hoè (tone on e, new style)
    let mut e = UltraFastViEngine::new();
    assert_eq!(type_keys(&mut e, "hoef"), "hoè");

    // uy -> tuỳ (tone on y, new style)
    let mut e = UltraFastViEngine::new();
    assert_eq!(type_keys(&mut e, "tuyf"), "tuỳ");
    
    // ia -> mía (tone on i)
    let mut e = UltraFastViEngine::new();
    assert_eq!(type_keys(&mut e, "mias"), "mía");
    
    // ua -> múa (tone on u)
    let mut e = UltraFastViEngine::new();
    assert_eq!(type_keys(&mut e, "muas"), "múa");
    
    // ưa -> mứa (tone on ư)
    let mut e = UltraFastViEngine::new();
    assert_eq!(type_keys(&mut e, "muwas"), "mứa");
}
