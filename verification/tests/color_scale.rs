use view_options::options::error::OptionsError;
use view_options::options::parser::{ColorScaleModeArgs, Opts};
use view_options::options::vars::{self, MockVars};
use view_options::output::color_scale::{ColorScaleMode, ColorScaleOptions};

#[test]
fn deduce_color_scale_size_age_luminance_40_gradient() {
    let vars = MockVars {
        ..MockVars::default()
    };

    let options = Opts {
        color_scale: Some(String::from("size,age")),
        ..Opts::default()
    };

    assert_eq!(
        ColorScaleOptions::deduce(&options, &vars),
        Ok(ColorScaleOptions {
            mode: ColorScaleMode::Gradient,
            min_luminance: 40,
            size: true,
            age: true,
        })
    );
}

#[test]
fn deduce_color_scale_size_luminance_60_gradient() {
    let mut vars = MockVars {
        ..MockVars::default()
    };

    let options = Opts {
        color_scale: Some(String::from("size")),
        ..Opts::default()
    };

    vars.set(vars::EZA_MIN_LUMINANCE, &String::from("60"));

    assert_eq!(
        ColorScaleOptions::deduce(&options, &vars),
        Ok(ColorScaleOptions {
            mode: ColorScaleMode::Gradient,
            min_luminance: 60,
            size: true,
            age: false,
        })
    );
}

#[test]
fn deduce_color_scale_age_luminance_60_fixed() {
    let mut vars = MockVars {
        ..MockVars::default()
    };

    let options = Opts {
        color_scale_mode: ColorScaleModeArgs::Fixed,
        color_scale: Some(String::from("age")),
        ..Opts::default()
    };

    vars.set(vars::EZA_MIN_LUMINANCE, &String::from("60"));

    assert_eq!(
        ColorScaleOptions::deduce(&options, &vars),
        Ok(ColorScaleOptions {
            mode: ColorScaleMode::Fixed,
            min_luminance: 60,
            size: false,
            age: true,
        })
    );
}

#[test]
fn deduce_color_scale_size_age_luminance_99_fixed() {
    let mut vars = MockVars {
        ..MockVars::default()
    };

    let options = Opts {
        color_scale_mode: ColorScaleModeArgs::Fixed,
        color_scale: Some(String::from("size,age")),
        ..Opts::default()
    };

    vars.set(vars::EZA_MIN_LUMINANCE, &String::from("99"));

    assert_eq!(
        ColorScaleOptions::deduce(&options, &vars),
        Ok(ColorScaleOptions {
            mode: ColorScaleMode::Fixed,
            min_luminance: 99,
            size: true,
            age: true,
        })
    );
}

fn scale(words: Option<&str>, luminance: Option<&str>) -> Result<ColorScaleOptions, OptionsError> {
    let mut vars = MockVars::default();
    if let Some(text) = luminance {
        vars.set(vars::EZA_MIN_LUMINANCE, &String::from(text));
    }
    let options = Opts {
        color_scale: words.map(String::from),
        ..Opts::default()
    };
    ColorScaleOptions::deduce(&options, &vars)
}

fn gradient(min_luminance: isize, size: bool, age: bool) -> Result<ColorScaleOptions, OptionsError> {
    Ok(ColorScaleOptions {
        mode: ColorScaleMode::Gradient,
        min_luminance,
        size,
        age,
    })
}

#[test]
fn color_scale_without_a_list() {
    assert_eq!(scale(None, None), gradient(40, false, false));
}

#[test]
fn color_scale_luminance_out_of_range_is_the_default() {
    assert_eq!(scale(Some("size,age"), Some("500")), gradient(40, true, true));
    assert_eq!(scale(None, Some("101")), gradient(40, false, false));
    assert_eq!(scale(None, Some("-101")), gradient(40, false, false));
    assert_eq!(
        scale(None, Some("99999999999999999999999999999999")),
        gradient(40, false, false)
    );
}

#[test]
fn color_scale_luminance_at_the_limits() {
    assert_eq!(scale(None, Some("100")), gradient(100, false, false));
    assert_eq!(scale(None, Some("-100")), gradient(-100, false, false));
    assert_eq!(scale(None, Some("+7")), gradient(7, false, false));
    assert_eq!(scale(None, Some("0")), gradient(0, false, false));
    assert_eq!(scale(None, Some("-0")), gradient(0, false, false));
    assert_eq!(scale(None, Some("0000000000000000000000000000012")), gradient(12, false, false));
}

#[test]
fn color_scale_luminance_that_is_no_number_is_the_default() {
    for text in ["", "bright", "+", "-", "4 0", "40 ", "--4", "+-4", "4.0", "４０"] {
        assert_eq!(scale(None, Some(text)), gradient(40, false, false));
    }
}

#[test]
fn color_scale_luminance_agrees_with_std() {
    for text in ["60", "-60", "+60", "100", "101", "-100", "-101", "", "x", "007", "-", "1e1"] {
        let expected = match text.parse::<isize>() {
            Ok(n) if (-100..=100).contains(&n) => n,
            _ => 40,
        };
        assert_eq!(scale(None, Some(text)), gradient(expected, false, false));
    }
}

#[test]
fn color_scale_luminance_legacy_name() {
    let mut vars = MockVars::default();
    vars.set(vars::EXA_MIN_LUMINANCE, &String::from("-20"));
    assert_eq!(
        ColorScaleOptions::deduce(&Opts::default(), &vars),
        gradient(-20, false, false)
    );
    vars.set(vars::EZA_MIN_LUMINANCE, &String::from("30"));
    assert_eq!(
        ColorScaleOptions::deduce(&Opts::default(), &vars),
        gradient(30, false, false)
    );
    vars.set(vars::EZA_MIN_LUMINANCE, &String::from("bad"));
    assert_eq!(
        ColorScaleOptions::deduce(&Opts::default(), &vars),
        gradient(40, false, false)
    );
}

#[test]
fn color_scale_words_add_up() {
    assert_eq!(scale(Some("all"), None), gradient(40, true, true));
    assert_eq!(scale(Some("age,age"), None), gradient(40, false, true));
    assert_eq!(scale(Some("size,size,age"), None), gradient(40, true, true));
    assert_eq!(scale(Some("all,size"), None), gradient(40, true, true));
}

#[test]
fn color_scale_unknown_word() {
    let bad = |word: &str| Err(OptionsError::BadArgument("color-scale", String::from(word)));
    assert_eq!(scale(Some("size,colour,nope"), None), bad("colour"));
    assert_eq!(scale(Some(""), None), bad(""));
    assert_eq!(scale(Some("size,"), None), bad(""));
    assert_eq!(scale(Some(",size"), None), bad(""));
    assert_eq!(scale(Some("Size"), None), bad("Size"));
    assert_eq!(scale(Some("size, age"), None), bad(" age"));
}
