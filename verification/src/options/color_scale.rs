//! Resolution of the colour scale.

use crate::options::error::{plain, OptionsError, OptionsErrorView};
use crate::options::parser::{ColorScaleModeArgs, Opts};
use crate::options::vars::{first_of, Vars, EXA_MIN_LUMINANCE, EZA_MIN_LUMINANCE};
use crate::output::color_scale::{ColorScaleMode, ColorScaleOptions};
use crate::text::{
    head, parse_signed_within, same_text, signed_number_within, split_first, until,
};
use vstd::prelude::*;
use vstd::string::*;

verus! {

impl ColorScaleOptions {
    /// The lowest luminance that the environment asks for: its number
    /// where that lies between -100 and 100, else 40.
    pub open spec fn luminance(value: Option<Seq<char>>) -> int {
        match value {
            Some(text) => match signed_number_within(text, 100) {
                Some(luminance) => luminance,
                None => 40,
            },
            None => 40,
        }
    }

    /// The luminance is never out of range.
    pub proof fn lemma_luminance_in_range(value: Option<Seq<char>>)
        ensures
            -100 <= Self::luminance(value) <= 100,
    {
    }

    /// Whether a word of the list names something that the scale can
    /// colour.
    pub open spec fn known_word(word: Seq<char>) -> bool {
        word == "all"@ || word == "age"@ || word == "size"@
    }

    /// The three known words are three different words.
    pub proof fn lemma_words_differ()
        ensures
            "all"@ != "age"@,
            "all"@ != "size"@,
            "age"@ != "size"@,
    {
        reveal_strlit("all");
        reveal_strlit("age");
        reveal_strlit("size");
        assert("all"@[1] != "age"@[1]);
    }

    /// Goes through the words of a list that commas separate, from the
    /// left, and switches on what each asks for, starting from `size` and
    /// `age`: the two switches at the end, or the first word that is not
    /// known.
    pub open spec fn dimensions(words: Seq<char>, size: bool, age: bool) -> Result<
        (bool, bool),
        Seq<char>,
    >
        decreases words.len(),
    {
        let word = head(words, ',');
        if !Self::known_word(word) {
            Err(word)
        } else {
            let size = size || word == "all"@ || word == "size"@;
            let age = age || word == "all"@ || word == "age"@;
            if until(words, ',') < words.len() {
                Self::dimensions(words.skip(until(words, ',') as int + 1), size, age)
            } else {
                Ok((size, age))
            }
        }
    }

    /// The words of a list only switch on: what was on at the start is
    /// on at the end.
    pub proof fn lemma_dimensions_only_add(words: Seq<char>, size: bool, age: bool)
        ensures
            Self::dimensions(words, size, age) matches Ok(end) ==> (size ==> end.0) && (age
                ==> end.1),
        decreases words.len(),
    {
        let word = head(words, ',');
        if Self::known_word(word) && until(words, ',') < words.len() {
            Self::lemma_dimensions_only_add(
                words.skip(until(words, ',') as int + 1),
                size || word == "all"@ || word == "size"@,
                age || word == "all"@ || word == "age"@,
            );
        }
    }

    /// The options of the colour scale.
    pub open spec fn spec_deduce<V: Vars>(opts: &Opts, vars: &V) -> Result<
        ColorScaleOptions,
        OptionsErrorView,
    > {
        let mode = match opts.color_scale_mode {
            ColorScaleModeArgs::Fixed => ColorScaleMode::Fixed,
            ColorScaleModeArgs::Gradient => ColorScaleMode::Gradient,
        };
        let min_luminance = Self::luminance(
            first_of(vars.lookup(EZA_MIN_LUMINANCE@), vars.lookup(EXA_MIN_LUMINANCE@)),
        ) as isize;
        match opts.color_scale {
            None => Ok(ColorScaleOptions { mode, min_luminance, size: false, age: false }),
            Some(words) => match Self::dimensions(words@, false, false) {
                Ok((size, age)) => Ok(ColorScaleOptions { mode, min_luminance, size, age }),
                Err(word) => Err(OptionsErrorView::BadArgument("color-scale"@, word)),
            },
        }
    }

    /// Determines the options of the colour scale. The luminance never
    /// fails: a value that is no number, or one out of range, gives 40.
    pub fn deduce<V: Vars>(opts: &Opts, vars: &V) -> (r: Result<Self, OptionsError>)
        ensures
            plain(r) == Self::spec_deduce(opts, vars),
            r matches Ok(options) ==> options.wf(),
    {
        let min_luminance: isize = match vars.get_with_fallback(
            EZA_MIN_LUMINANCE,
            EXA_MIN_LUMINANCE,
        ) {
            Some(text) => match parse_signed_within(text.as_str(), 100) {
                Some(luminance) => luminance as isize,
                None => 40,
            },
            None => 40,
        };
        let mode = match opts.color_scale_mode {
            ColorScaleModeArgs::Fixed => ColorScaleMode::Fixed,
            ColorScaleModeArgs::Gradient => ColorScaleMode::Gradient,
        };
        let words: &str = match &opts.color_scale {
            Some(words) => words.as_str(),
            None => {
                return Ok(ColorScaleOptions { mode, min_luminance, size: false, age: false });
            },
        };
        let mut size: bool = false;
        let mut age: bool = false;
        let mut rest: &str = words;
        loop
            invariant
                Self::dimensions(words@, false, false) == Self::dimensions(rest@, size, age),
                opts.color_scale matches Some(w) && w@ == words@,
                -100 <= min_luminance <= 100,
                min_luminance as int == Self::luminance(
                    first_of(vars.lookup(EZA_MIN_LUMINANCE@), vars.lookup(EXA_MIN_LUMINANCE@)),
                ),
                mode == (match opts.color_scale_mode {
                    ColorScaleModeArgs::Fixed => ColorScaleMode::Fixed,
                    ColorScaleModeArgs::Gradient => ColorScaleMode::Gradient,
                }),
            decreases rest@.len(),
        {
            let (word, more) = split_first(rest, ',');
            proof {
                Self::lemma_words_differ();
            }
            if same_text(word, "all") {
                size = true;
                age = true;
            } else if same_text(word, "age") {
                age = true;
            } else if same_text(word, "size") {
                size = true;
            } else {
                return Err(OptionsError::BadArgument("color-scale", word.to_owned()));
            }
            match more {
                Some(next) => {
                    rest = next;
                },
                None => {
                    return Ok(ColorScaleOptions { mode, min_luminance, size, age });
                },
            }
        }
    }
}

} // verus!
