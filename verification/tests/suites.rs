use after_effects::error::Error;
use after_effects::suites::{
    fits, Application, Effect, EffectFlags, EffectSuite, InstalledEffect, InstalledEffectKey,
    ParamKind, ProjectHandle, ProjectSuite, WorldSuite2, EFFECT_FLAGS_ALL, EFFECT_FLAG_ACTIVE,
    EFFECT_FLAG_AUDIO_ONLY, EFFECT_FLAG_AUDIO_TOO, EFFECT_FLAG_MISSING,
    INSTALLED_EFFECT_KEY_NONE, MAX_EFFECT_NAME_SIZE,
};

fn effect(key: i32, name: &str) -> InstalledEffect {
    InstalledEffect {
        key,
        name: name.to_string(),
        match_name: format!("ADBE {}", name),
        category: "Sample Plug-ins".to_string(),
    }
}

fn app() -> Application {
    let mut app = Application::new(true, true, true);
    assert!(app.install_effect(effect(12, "Portable")));
    assert!(app.install_effect(effect(5, "Paramarama")));
    assert!(app.install_effect(effect(-3, "Gamma")));
    app
}

#[test]
fn raw_keys_and_keys() {
    assert_eq!(INSTALLED_EFFECT_KEY_NONE, 0);
    assert_eq!(InstalledEffectKey::from(0), InstalledEffectKey::NoKey);
    assert_eq!(InstalledEffectKey::from(7), InstalledEffectKey::Key(7));
    assert_eq!(InstalledEffectKey::from(-1), InstalledEffectKey::Key(-1));
    assert_eq!(i32::from(InstalledEffectKey::NoKey), 0);
    assert_eq!(i32::from(InstalledEffectKey::Key(7)), 7);
    let raw: i32 = InstalledEffectKey::Key(i32::MIN).into();
    assert_eq!(raw, i32::MIN);
    for raw in [i32::MIN, -1, 0, 1, 48, i32::MAX] {
        assert_eq!(i32::from(InstalledEffectKey::from(raw)), raw);
    }
    assert_eq!(
        InstalledEffectKey::from(i32::from(InstalledEffectKey::Key(0))),
        InstalledEffectKey::NoKey
    );
}

#[test]
fn a_suite_that_is_not_offered_is_missing() {
    let bare = Application::new(false, false, false);
    assert_eq!(EffectSuite::new(&bare).err(), Some(Error::MissingSuite));
    assert_eq!(ProjectSuite::new(&bare).err(), Some(Error::MissingSuite));
    assert_eq!(WorldSuite2::new(&bare).err(), Some(Error::MissingSuite));
    assert_eq!(Effect::num_installed_effects(&bare), Err(Error::MissingSuite));
    assert_eq!(
        Effect::next_installed_effect(&bare, InstalledEffectKey::NoKey),
        Err(Error::MissingSuite)
    );
    assert_eq!(Effect::name_of(&bare, InstalledEffectKey::Key(1)), Err(Error::MissingSuite));
    assert_eq!(Effect::match_name_of(&bare, InstalledEffectKey::Key(1)), Err(Error::MissingSuite));
    assert_eq!(Effect::category_of(&bare, InstalledEffectKey::Key(1)), Err(Error::MissingSuite));
    let some = Application::new(false, true, false);
    assert!(ProjectSuite::new(&some).is_ok());
    assert!(EffectSuite::new(&some).is_err());
    let world = Application::new(false, false, true);
    assert!(WorldSuite2::new(&world).is_ok());
}

#[test]
fn installed_effects_are_counted() {
    assert_eq!(Effect::num_installed_effects(&Application::new(true, false, false)), Ok(0));
    assert_eq!(Effect::num_installed_effects(&app()), Ok(3));
    assert_eq!(EffectSuite::new(&app()).unwrap().num_installed_effects(), Ok(3));
}

#[test]
fn the_walk_over_the_installed_effects() {
    let app = app();
    let mut key = InstalledEffectKey::NoKey;
    let mut seen = vec![];
    for _ in 0..Effect::num_installed_effects(&app).unwrap() {
        key = Effect::next_installed_effect(&app, key).unwrap();
        seen.push(key);
    }
    assert_eq!(
        seen,
        vec![InstalledEffectKey::Key(12), InstalledEffectKey::Key(5), InstalledEffectKey::Key(-3)]
    );
    assert_eq!(Effect::next_installed_effect(&app, key), Ok(InstalledEffectKey::NoKey));
    assert_eq!(
        Effect::next_installed_effect(&app, InstalledEffectKey::Key(6)),
        Err(Error::InvalidIndex)
    );
    let empty = Application::new(true, false, false);
    assert_eq!(
        Effect::next_installed_effect(&empty, InstalledEffectKey::NoKey),
        Ok(InstalledEffectKey::NoKey)
    );
}

#[test]
fn what_is_told_of_an_installed_effect() {
    let app = app();
    let key = InstalledEffectKey::Key(5);
    assert_eq!(Effect::name_of(&app, key), Ok("Paramarama".to_string()));
    assert_eq!(Effect::match_name_of(&app, key), Ok("ADBE Paramarama".to_string()));
    assert_eq!(Effect::category_of(&app, key), Ok("Sample Plug-ins".to_string()));
    assert_eq!(Effect::name_of(&app, InstalledEffectKey::Key(-3)), Ok("Gamma".to_string()));
    for unknown in [InstalledEffectKey::NoKey, InstalledEffectKey::Key(4)] {
        assert_eq!(Effect::name_of(&app, unknown), Err(Error::InvalidIndex));
        assert_eq!(Effect::match_name_of(&app, unknown), Err(Error::InvalidIndex));
        assert_eq!(Effect::category_of(&app, unknown), Err(Error::InvalidIndex));
    }
    let suite = EffectSuite::new(&app).unwrap();
    assert_eq!(suite.effect_name(InstalledEffectKey::Key(12)), Ok("Portable".to_string()));
    assert_eq!(suite.effect_match_name(InstalledEffectKey::Key(12)), Ok("ADBE Portable".to_string()));
    assert_eq!(
        suite.effect_category(InstalledEffectKey::Key(12)),
        Ok("Sample Plug-ins".to_string())
    );
}

#[test]
fn an_effect_is_installed_once_and_never_with_no_key() {
    let mut app = app();
    assert!(!app.install_effect(effect(5, "Again")));
    assert!(!app.install_effect(effect(0, "Nothing")));
    assert_eq!(Effect::num_installed_effects(&app), Ok(3));
    assert_eq!(Effect::name_of(&app, InstalledEffectKey::Key(5)), Ok("Paramarama".to_string()));
    assert!(app.install_effect(effect(6, "More")));
    assert_eq!(Effect::num_installed_effects(&app), Ok(4));
    assert_eq!(
        Effect::next_installed_effect(&app, InstalledEffectKey::Key(-3)),
        Ok(InstalledEffectKey::Key(6))
    );
}

#[test]
fn open_projects_and_their_paths() {
    let mut app = Application::new(false, true, false);
    let suite = ProjectSuite::new(&app).unwrap();
    assert_eq!(suite.get_num_projects(), Ok(0));
    assert_eq!(suite.get_project_by_index(0), Err(Error::InvalidIndex));
    assert!(app.open_project("/work/film.aep".to_string()));
    assert!(app.open_project(String::new()));
    let suite = ProjectSuite::new(&app).unwrap();
    assert_eq!(suite.get_num_projects(), Ok(2));
    let first = suite.get_project_by_index(0).unwrap();
    assert_eq!(first, ProjectHandle { index: 0 });
    assert_eq!(suite.get_project_path(first), Ok("/work/film.aep".to_string()));
    let second = suite.get_project_by_index(1).unwrap();
    assert_eq!(suite.get_project_path(second), Ok(String::new()));
    assert_eq!(suite.get_project_by_index(2), Err(Error::InvalidIndex));
    assert_eq!(suite.get_project_by_index(-1), Err(Error::InvalidIndex));
    assert_eq!(suite.get_project_path(ProjectHandle { index: 2 }), Err(Error::InvalidIndex));
    assert_eq!(suite.get_project_path(ProjectHandle { index: -1 }), Err(Error::InvalidIndex));
}

#[test]
fn a_text_of_the_host_is_short_and_has_no_zero_byte() {
    assert_eq!(MAX_EFFECT_NAME_SIZE, 48);
    assert!(fits(""));
    assert!(fits("Paramarama"));
    assert!(fits(&"x".repeat(48)));
    assert!(!fits(&"x".repeat(49)));
    assert!(!fits("a\0b"));
    assert!(!fits("\0"));
    assert!(fits(&"\u{e9}".repeat(24)));
    assert!(!fits(&"\u{e9}".repeat(25)));
}

#[test]
fn an_effect_with_a_text_that_the_host_cannot_give_is_refused() {
    let mut app = app();
    let long = "x".repeat(49);
    let mut bad = effect(20, "Fine");
    bad.name = long.clone();
    assert!(!app.install_effect(bad));
    let mut bad = effect(20, "Fine");
    bad.match_name = "ADBE\0Fine".to_string();
    assert!(!app.install_effect(bad));
    let mut bad = effect(20, "Fine");
    bad.category = long;
    assert!(!app.install_effect(bad));
    assert_eq!(Effect::num_installed_effects(&app), Ok(3));
    let mut good = effect(20, "Fine");
    good.name = "y".repeat(48);
    assert!(app.install_effect(good));
    assert_eq!(Effect::name_of(&app, InstalledEffectKey::Key(20)), Ok("y".repeat(48)));
}

#[test]
fn the_kind_of_a_parameter_by_the_tag_of_the_host() {
    assert_eq!(ParamKind::from_tag(1), Ok(ParamKind::Slider));
    assert_eq!(ParamKind::from_tag(3), Ok(ParamKind::Angle));
    assert_eq!(ParamKind::from_tag(4), Ok(ParamKind::CheckBox));
    assert_eq!(ParamKind::from_tag(5), Ok(ParamKind::Color));
    assert_eq!(ParamKind::from_tag(6), Ok(ParamKind::Point));
    assert_eq!(ParamKind::from_tag(7), Ok(ParamKind::Popup));
    assert_eq!(ParamKind::from_tag(10), Ok(ParamKind::FloatSlider));
    assert_eq!(ParamKind::from_tag(11), Ok(ParamKind::Arbitrary));
    assert_eq!(ParamKind::from_tag(12), Ok(ParamKind::Path));
    assert_eq!(ParamKind::from_tag(15), Ok(ParamKind::Button));
    assert_eq!(ParamKind::from_tag(18), Ok(ParamKind::Point3D));
    for tag in [-1, 0, 2, 8, 9, 13, 14, 16, 17, 19, 100, i32::MIN, i32::MAX] {
        assert_eq!(ParamKind::from_tag(tag), Err(Error::InvalidParms));
    }
}

#[test]
fn flags_keep_only_the_known_bits() {
    assert_eq!(EFFECT_FLAGS_ALL, 15);
    assert_eq!(
        EFFECT_FLAG_ACTIVE | EFFECT_FLAG_AUDIO_ONLY | EFFECT_FLAG_AUDIO_TOO | EFFECT_FLAG_MISSING,
        EFFECT_FLAGS_ALL
    );
    assert_eq!(EffectFlags::from_bits_truncate(0).bits(), 0);
    assert_eq!(EffectFlags::from_bits_truncate(5).bits(), 5);
    assert_eq!(EffectFlags::from_bits_truncate(16).bits(), 0);
    assert_eq!(EffectFlags::from_bits_truncate(0x7ff9).bits(), 9);
    assert_eq!(EffectFlags::from_bits_truncate(-1).bits(), 15);
    assert_eq!(EffectFlags::from_bits_truncate(i32::MIN).bits(), 0);
    let flags = EffectFlags::from_bits_truncate(EFFECT_FLAG_ACTIVE | EFFECT_FLAG_MISSING | 64);
    assert!(flags.contains(EFFECT_FLAG_ACTIVE));
    assert!(flags.contains(EFFECT_FLAG_MISSING));
    assert!(flags.contains(EFFECT_FLAG_ACTIVE | EFFECT_FLAG_MISSING));
    assert!(flags.contains(0));
    assert!(!flags.contains(EFFECT_FLAG_AUDIO_ONLY));
    assert!(!flags.contains(EFFECT_FLAG_ACTIVE | EFFECT_FLAG_AUDIO_TOO));
    assert!(!flags.contains(64));
    assert_eq!(EffectFlags::from_bits_truncate(flags.bits()), flags);
}
