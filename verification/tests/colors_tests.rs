use beanal::gui_state::ColorChoice;
use beanal::colors::{
    add_loaded_preset, built_in_colors, preset_file_name, remove_presets_named, resolve_colors,
    sanitize_filename, store_preset, Color32, ColorProfile, ColorRef,
};

#[test]
fn test_resolve_colors_priority() {
    let mut user_presets = Vec::new();
    let user_neon = ColorProfile {
        name: "Neon Tokyo".to_string(),
        low: Color32::red(),
        ..ColorProfile::default()
    };
    user_presets.push(user_neon);
    let link = ColorRef::Preset("Neon Tokyo".to_string());
    let resolved = resolve_colors(&link, None, &user_presets);
    assert_eq!(resolved.low, Color32::red(), "User preset should override built-in preset with same name");
}

#[test]
fn test_background_override_logic() {
    let link = ColorRef::Preset("Neon Tokyo".to_string());
    let override_color = Color32::from_rgb(100, 100, 100);
    let resolved = resolve_colors(&link, Some(override_color), &Vec::new());
    assert_eq!(resolved.background, override_color, "Background override failed");
    assert_ne!(resolved.low, Color32::black(), "Preset colors should still be present");
}

#[test]
fn test_filename_sanitization() {
    assert_eq!(sanitize_filename("Cool Preset"), "cool_preset");
    assert_eq!(sanitize_filename("My/Preset!"), "mypreset");
    assert_eq!(sanitize_filename("  Trim Me  "), "trim_me");
    assert_eq!(sanitize_filename("O'Reilly"), "oreilly");
}

#[test]
fn preset_files_are_json() {
    assert_eq!(preset_file_name("Cool Preset"), "cool_preset.json");
}

#[test]
fn built_in_presets_resolve_by_name() {
    let all = built_in_colors();
    assert_eq!(all.len(), ColorProfile::built_in().len());
    assert_eq!(all[0].name, "Winamp");
    assert_eq!(all[1].name, "Neon Tokyo");
    let neon = ColorProfile::find_by_name("Neon Tokyo").unwrap();
    assert_eq!(neon.low, Color32::from_rgb(255, 0, 127));
    assert_eq!(neon.background, Color32::from_rgb(5, 5, 10));
    assert_eq!(neon.inspector_bg, Color32 { r: 0, g: 0, b: 0, a: 229 });
    assert!(ColorProfile::find_by_name("No Such Preset").is_none());
}

#[test]
fn unknown_preset_falls_back_to_default_profile() {
    let resolved = resolve_colors(&ColorRef::Preset("Nope".to_string()), None, &Vec::new());
    assert_eq!(resolved, ColorProfile::default());
    assert_eq!(resolved.name, "Winamp");
}

#[test]
fn custom_colors_take_background_override() {
    let custom = ColorProfile { name: "Mine".to_string(), ..ColorProfile::default() };
    let resolved = resolve_colors(&ColorRef::Custom(custom.clone()), Some(Color32::white()), &Vec::new());
    assert_eq!(resolved.background, Color32::white());
    assert_eq!(resolved.low, custom.low);
    assert_eq!(resolved.name, "Mine");
}

#[test]
fn loading_skips_duplicate_names() {
    let mut presets = Vec::new();
    assert!(add_loaded_preset(&mut presets, ColorProfile { name: "A".to_string(), ..ColorProfile::default() }));
    assert!(!add_loaded_preset(&mut presets, ColorProfile { name: "A".to_string(), low: Color32::red(), ..ColorProfile::default() }));
    assert_eq!(presets.len(), 1);
    assert_ne!(presets[0].low, Color32::red());
}

#[test]
fn storing_replaces_and_removing_deletes() {
    let mut presets = vec![ColorProfile { name: "A".to_string(), ..ColorProfile::default() }];
    store_preset(&mut presets, ColorProfile { name: "A".to_string(), low: Color32::red(), ..ColorProfile::default() });
    assert_eq!(presets.len(), 1);
    assert_eq!(presets[0].low, Color32::red());
    store_preset(&mut presets, ColorProfile { name: "B".to_string(), ..ColorProfile::default() });
    assert_eq!(presets.len(), 2);
    remove_presets_named(&mut presets, "A");
    assert_eq!(presets.len(), 1);
    assert_eq!(presets[0].name, "B");
}

#[test]
fn more_than_twenty_five_presets_each_found_by_name() {
    let all = built_in_colors();
    assert!(all.len() >= 25);
    for p in &all {
        assert_eq!(ColorProfile::find_by_name(&p.name).as_ref(), Some(p));
    }
}

#[test]
fn colour_controls_update_the_link() {
    use_color_choice();
}

fn use_color_choice() {
    let mut choice = ColorChoice {
        color_link: ColorRef::Preset("Neon Tokyo".to_string()),
        background: Some(Color32::from_rgb(1, 2, 3)),
    };
    let shown = resolve_colors(&choice.color_link, choice.background, &Vec::new());
    choice.apply_edit(&shown, shown.clone());
    assert_eq!(choice.background, Some(Color32::from_rgb(1, 2, 3)));
    let edited = ColorProfile { low: Color32::red(), ..shown.clone() };
    choice.apply_edit(&shown, edited.clone());
    assert_eq!(choice.color_link, ColorRef::Custom(edited.clone()));
    assert!(choice.background.is_none());
    assert_eq!(resolve_colors(&choice.color_link, choice.background, &Vec::new()), edited);
    choice.background = Some(Color32::white());
    choice.choose_preset("Matrix".to_string());
    assert_eq!(choice.color_link, ColorRef::Preset("Matrix".to_string()));
    assert!(choice.background.is_none());
    choice.background = Some(Color32::white());
    choice.reset_background();
    assert!(choice.background.is_none());
}
