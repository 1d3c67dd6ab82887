//! The configuration store and its vocabulary: the closed `Color`
//! enumeration with its lossless name mapping, the six customization
//! options, and the flat configuration record that the `customize`
//! command reads and updates.

use vstd::prelude::*;
use crate::text::str_eq;

verus! {

/// The closed set of text colors the shell can render.
#[derive(Clone, Copy, Debug, PartialEq, Eq, Structural)]
pub enum Color {
    Red,
    Green,
    Blue,
    Yellow,
    Magenta,
    Cyan,
    White,
    Black,
}

/// The textual name of a color, the single source of truth for the
/// name mapping in both directions.
pub open spec fn color_name(c: Color) -> Seq<char> {
    match c {
        Color::Red => "Red"@,
        Color::Green => "Green"@,
        Color::Blue => "Blue"@,
        Color::Yellow => "Yellow"@,
        Color::Magenta => "Magenta"@,
        Color::Cyan => "Cyan"@,
        Color::White => "White"@,
        Color::Black => "Black"@,
    }
}

/// The color a textual name resolves to, or `None` for an unknown name.
pub open spec fn parse_color(s: Seq<char>) -> Option<Color> {
    if s == "Red"@ {
        Some(Color::Red)
    } else if s == "Green"@ {
        Some(Color::Green)
    } else if s == "Blue"@ {
        Some(Color::Blue)
    } else if s == "Yellow"@ {
        Some(Color::Yellow)
    } else if s == "Magenta"@ {
        Some(Color::Magenta)
    } else if s == "Cyan"@ {
        Some(Color::Cyan)
    } else if s == "White"@ {
        Some(Color::White)
    } else if s == "Black"@ {
        Some(Color::Black)
    } else {
        None
    }
}

impl Color {
    pub fn from_str(s: &str) -> (r: Option<Color>)
        ensures
            r == parse_color(s@),
    {
        if str_eq(s, "Red") {
            Some(Color::Red)
        } else if str_eq(s, "Green") {
            Some(Color::Green)
        } else if str_eq(s, "Blue") {
            Some(Color::Blue)
        } else if str_eq(s, "Yellow") {
            Some(Color::Yellow)
        } else if str_eq(s, "Magenta") {
            Some(Color::Magenta)
        } else if str_eq(s, "Cyan") {
            Some(Color::Cyan)
        } else if str_eq(s, "White") {
            Some(Color::White)
        } else if str_eq(s, "Black") {
            Some(Color::Black)
        } else {
            None
        }
    }

    pub fn make_str(self) -> (r: &'static str)
        ensures
            r@ == color_name(self),
    {
        match self {
            Color::Red => "Red",
            Color::Green => "Green",
            Color::Blue => "Blue",
            Color::Yellow => "Yellow",
            Color::Magenta => "Magenta",
            Color::Cyan => "Cyan",
            Color::White => "White",
            Color::Black => "Black",
        }
    }

    /// Every color, in the order the help tables list them.
    pub fn get_color_list() -> (r: Vec<Color>)
        ensures
            r@ == seq![
                Color::Red,
                Color::Green,
                Color::Blue,
                Color::Yellow,
                Color::Magenta,
                Color::Cyan,
                Color::White,
                Color::Black,
            ],
    {
        let r: Vec<Color> = vec![
            Color::Red,
            Color::Green,
            Color::Blue,
            Color::Yellow,
            Color::Magenta,
            Color::Cyan,
            Color::White,
            Color::Black,
        ];
        proof {
            assert(r@ =~= seq![
                Color::Red,
                Color::Green,
                Color::Blue,
                Color::Yellow,
                Color::Magenta,
                Color::Cyan,
                Color::White,
                Color::Black,
            ]);
        }
        r
    }
}

/// The name mapping is lossless: parsing a color's own name gives the
/// color back, and a name that parses came from exactly that color.
pub proof fn lemma_color_name_round_trip(c: Color, s: Seq<char>)
    ensures
        parse_color(color_name(c)) == Some(c),
        parse_color(s) == Some(c) ==> s == color_name(c),
{
    reveal_strlit("Red");
    reveal_strlit("Green");
    reveal_strlit("Blue");
    reveal_strlit("Yellow");
    reveal_strlit("Magenta");
    reveal_strlit("Cyan");
    reveal_strlit("White");
    reveal_strlit("Black");
    assert("Red"@.len() == 3);
    assert("Green"@.len() == 5);
    assert("Blue"@.len() == 4);
    assert("Yellow"@.len() == 6);
    assert("Magenta"@.len() == 7);
    assert("Cyan"@.len() == 4);
    assert("White"@.len() == 5);
    assert("Black"@.len() == 5);
    assert("Green"@[0] == 'G');
    assert("White"@[0] == 'W');
    assert("Black"@[0] == 'B');
    assert("Blue"@[0] == 'B');
    assert("Cyan"@[0] == 'C');
    match c {
        Color::Red => assert(parse_color(color_name(c)) == Some(c)),
        Color::Green => assert(parse_color(color_name(c)) == Some(c)),
        Color::Blue => assert(parse_color(color_name(c)) == Some(c)),
        Color::Yellow => assert(parse_color(color_name(c)) == Some(c)),
        Color::Magenta => assert(parse_color(color_name(c)) == Some(c)),
        Color::Cyan => assert(parse_color(color_name(c)) == Some(c)),
        Color::White => assert(parse_color(color_name(c)) == Some(c)),
        Color::Black => assert(parse_color(color_name(c)) == Some(c)),
    }
}

/// The closed set of persisted customization options; exactly these six
/// keys exist in every configuration record.
#[derive(Clone, Copy, Debug, PartialEq, Eq, Structural)]
pub enum CustomizationOptions {
    TextColor,
    BackgroundColor,
    FontSize,
    ErrorColor,
    PromptColor,
    PromptText,
}

/// The textual name of a customization option.
pub open spec fn option_name(o: CustomizationOptions) -> Seq<char> {
    match o {
        CustomizationOptions::TextColor => "Text_Color"@,
        CustomizationOptions::BackgroundColor => "Background_Color"@,
        CustomizationOptions::FontSize => "Font_Size"@,
        CustomizationOptions::ErrorColor => "Error_Color"@,
        CustomizationOptions::PromptColor => "Prompt_Color"@,
        CustomizationOptions::PromptText => "Prompt_Text"@,
    }
}

/// The option a textual name resolves to, or `None` for an unknown name.
pub open spec fn parse_option(s: Seq<char>) -> Option<CustomizationOptions> {
    if s == "Text_Color"@ {
        Some(CustomizationOptions::TextColor)
    } else if s == "Background_Color"@ {
        Some(CustomizationOptions::BackgroundColor)
    } else if s == "Font_Size"@ {
        Some(CustomizationOptions::FontSize)
    } else if s == "Error_Color"@ {
        Some(CustomizationOptions::ErrorColor)
    } else if s == "Prompt_Color"@ {
        Some(CustomizationOptions::PromptColor)
    } else if s == "Prompt_Text"@ {
        Some(CustomizationOptions::PromptText)
    } else {
        None
    }
}

impl CustomizationOptions {
    /// Returns the string representation of the customization option.
    pub fn as_str(&self) -> (r: &'static str)
        ensures
            r@ == option_name(*self),
    {
        match self {
            CustomizationOptions::TextColor => "Text_Color",
            CustomizationOptions::BackgroundColor => "Background_Color",
            CustomizationOptions::FontSize => "Font_Size",
            CustomizationOptions::ErrorColor => "Error_Color",
            CustomizationOptions::PromptColor => "Prompt_Color",
            CustomizationOptions::PromptText => "Prompt_Text",
        }
    }

    /// Returns the byte representation of the customization option.
    pub fn as_bytes(&self) -> (r: &'static [u8])
        ensures
            r@ == vstd::utf8::encode_utf8(option_name(*self)),
    {
        let s = self.as_str();
        s.as_bytes()
    }

    /// Attempts to parse a `&str` into a `CustomizationOptions` variant.
    pub fn from_str(s: &str) -> (r: Option<Self>)
        ensures
            r == parse_option(s@),
    {
        if str_eq(s, "Text_Color") {
            Some(CustomizationOptions::TextColor)
        } else if str_eq(s, "Background_Color") {
            Some(CustomizationOptions::BackgroundColor)
        } else if str_eq(s, "Font_Size") {
            Some(CustomizationOptions::FontSize)
        } else if str_eq(s, "Error_Color") {
            Some(CustomizationOptions::ErrorColor)
        } else if str_eq(s, "Prompt_Color") {
            Some(CustomizationOptions::PromptColor)
        } else if str_eq(s, "Prompt_Text") {
            Some(CustomizationOptions::PromptText)
        } else {
            None
        }
    }
}

/// The name mapping of the options is lossless: parsing an option's own
/// name gives the option back, and a name that parses came from exactly
/// that option.
pub proof fn lemma_option_name_round_trip(o: CustomizationOptions, s: Seq<char>)
    ensures
        parse_option(option_name(o)) == Some(o),
        parse_option(s) == Some(o) ==> s == option_name(o),
{
    reveal_strlit("Text_Color");
    reveal_strlit("Background_Color");
    reveal_strlit("Font_Size");
    reveal_strlit("Error_Color");
    reveal_strlit("Prompt_Color");
    reveal_strlit("Prompt_Text");
    assert("Text_Color"@.len() == 10);
    assert("Background_Color"@.len() == 16);
    assert("Font_Size"@.len() == 9);
    assert("Error_Color"@.len() == 11);
    assert("Prompt_Color"@.len() == 12);
    assert("Prompt_Text"@.len() == 11);
    assert("Error_Color"@[0] == 'E');
    assert("Prompt_Text"@[0] == 'P');
    match o {
        CustomizationOptions::TextColor => assert(parse_option(option_name(o)) == Some(o)),
        CustomizationOptions::BackgroundColor => assert(parse_option(option_name(o)) == Some(o)),
        CustomizationOptions::FontSize => assert(parse_option(option_name(o)) == Some(o)),
        CustomizationOptions::ErrorColor => assert(parse_option(option_name(o)) == Some(o)),
        CustomizationOptions::PromptColor => assert(parse_option(option_name(o)) == Some(o)),
        CustomizationOptions::PromptText => assert(parse_option(option_name(o)) == Some(o)),
    }
}

/// One entry of the configuration record: an option and its stored
/// value, `None` meaning unset.
#[derive(Clone, Debug)]
pub struct Configuration {
    pub option: CustomizationOptions,
    pub value: Option<String>,
}

/// The canonical order of the six options inside a configuration record.
pub open spec fn option_at(i: int) -> CustomizationOptions {
    if i == 0 {
        CustomizationOptions::TextColor
    } else if i == 1 {
        CustomizationOptions::BackgroundColor
    } else if i == 2 {
        CustomizationOptions::FontSize
    } else if i == 3 {
        CustomizationOptions::ErrorColor
    } else if i == 4 {
        CustomizationOptions::PromptColor
    } else {
        CustomizationOptions::PromptText
    }
}

/// A well-formed configuration record: the six options, each exactly
/// once, in canonical order.
pub open spec fn cfg_wf(s: Seq<Configuration>) -> bool {
    s.len() == 6 && (forall|i: int| 0 <= i < 6 ==> #[trigger] s[i].option == option_at(i))
}

/// The stored value of `key`: the value of the first entry carrying that
/// option, or `None` when no entry does.
pub open spec fn cfg_value(s: Seq<Configuration>, key: CustomizationOptions) -> Option<Seq<char>>
    decreases s.len(),
{
    if s.len() == 0 {
        None
    } else if s[0].option == key {
        s[0].value.deep_view()
    } else {
        cfg_value(s.drop_first(), key)
    }
}

/// Whether some entry of the record carries `key`.
pub open spec fn has_option(s: Seq<Configuration>, key: CustomizationOptions) -> bool
    decreases s.len(),
{
    s.len() > 0 && (s[0].option == key || has_option(s.drop_first(), key))
}

/// The color stored under `key`, with Red for an unset or unparseable
/// value.
pub open spec fn spec_get_color(s: Seq<Configuration>, key: CustomizationOptions) -> Color {
    match cfg_value(s, key) {
        Some(v) => match parse_color(v) {
            Some(c) => c,
            None => Color::Red,
        },
        None => Color::Red,
    }
}

/// Returns the fresh default configuration record: all six options, all
/// unset.
pub fn get_customization_options() -> (r: Vec<Configuration>)
    ensures
        cfg_wf(r@),
        forall|i: int| 0 <= i < 6 ==> (#[trigger] r@[i].value) is None,
{
    let mut r: Vec<Configuration> = Vec::new();
    r.push(Configuration { option: CustomizationOptions::TextColor, value: None });
    r.push(Configuration { option: CustomizationOptions::BackgroundColor, value: None });
    r.push(Configuration { option: CustomizationOptions::FontSize, value: None });
    r.push(Configuration { option: CustomizationOptions::ErrorColor, value: None });
    r.push(Configuration { option: CustomizationOptions::PromptColor, value: None });
    r.push(Configuration { option: CustomizationOptions::PromptText, value: None });
    r
}

/// Updates the value of the given `Configuration` entry with the given
/// string.
pub fn change_config(config: &mut Configuration, value: &str)
    ensures
        final(config).option == old(config).option,
        final(config).value.deep_view() == Some(value@),
{
    config.value = Some(value.to_owned());
}

/// Returns a fresh configuration record in which `option` carries
/// `value` and every other option is unset.
pub fn add_option_to_config_vector(option: CustomizationOptions, value: String) -> (r: Vec<
    Configuration,
>)
    ensures
        cfg_wf(r@),
        forall|i: int|
            0 <= i < 6 ==> (#[trigger] r@[i].value).deep_view() == (if option_at(i) == option {
                Some(value@)
            } else {
                None::<Seq<char>>
            }),
{
    let original_configs = get_customization_options();
    let mut updated_configs: Vec<Configuration> = Vec::new();
    let mut i: usize = 0;
    while i < original_configs.len()
        invariant
            original_configs.len() == 6,
            cfg_wf(original_configs@),
            forall|j: int| 0 <= j < 6 ==> (#[trigger] original_configs@[j].value) is None,
            i <= 6,
            updated_configs@.len() == i,
            forall|j: int|
                0 <= j < i ==> #[trigger] updated_configs@[j].option == option_at(j),
            forall|j: int|
                0 <= j < i ==> (#[trigger] updated_configs@[j].value).deep_view() == (
                if option_at(j) == option {
                    Some(value@)
                } else {
                    None::<Seq<char>>
                }),
        decreases original_configs.len() - i,
    {
        let entry_option = original_configs[i].option;
        if entry_option == option {
            updated_configs.push(Configuration { option: entry_option, value: Some(value.clone()) });
        } else {
            updated_configs.push(Configuration { option: entry_option, value: None });
        }
        i += 1;
    }
    updated_configs
}

fn clone_opt_value(v: &Option<String>) -> (r: Option<String>)
    ensures
        r.deep_view() == v.deep_view(),
{
    match v {
        Some(s) => Some(s.clone()),
        None => None,
    }
}

proof fn lemma_cfg_value_at_first_match(s: Seq<Configuration>, key: CustomizationOptions, i: int)
    requires
        0 <= i < s.len(),
        s[i].option == key,
        forall|j: int| 0 <= j < i ==> #[trigger] s[j].option != key,
    ensures
        cfg_value(s, key) == s[i].value.deep_view(),
    decreases i,
{
    if i > 0 {
        lemma_cfg_value_at_first_match(s.drop_first(), key, i - 1);
    }
}

proof fn lemma_cfg_value_absent(s: Seq<Configuration>, key: CustomizationOptions)
    requires
        forall|j: int| 0 <= j < s.len() ==> #[trigger] s[j].option != key,
    ensures
        cfg_value(s, key) == None::<Seq<char>>,
    decreases s.len(),
{
    if s.len() > 0 {
        lemma_cfg_value_absent(s.drop_first(), key);
    }
}

/// Returns the stored value of the given configuration key, or `None`
/// if the key is unset or absent.
pub fn get_config_value(key: CustomizationOptions, configs_vector: &mut Vec<Configuration>) -> (r:
    Option<String>)
    ensures
        *final(configs_vector) == *old(configs_vector),
        r.deep_view() == cfg_value(old(configs_vector)@, key),
{
    let mut i: usize = 0;
    while i < configs_vector.len()
        invariant
            *configs_vector == *old(configs_vector),
            i <= configs_vector@.len(),
            forall|j: int| 0 <= j < i ==> #[trigger] configs_vector@[j].option != key,
        decreases configs_vector@.len() - i,
    {
        if configs_vector[i].option == key {
            proof {
                lemma_cfg_value_at_first_match(configs_vector@, key, i as int);
            }
            return clone_opt_value(&configs_vector[i].value);
        }
        i += 1;
    }
    proof {
        lemma_cfg_value_absent(configs_vector@, key);
    }
    None
}

/// Returns the color stored under the given configuration key, or Red
/// if the key is unset or its value is not a valid color name.
pub fn get_color(option: CustomizationOptions, configs_vector: &mut Vec<Configuration>) -> (c:
    Color)
    ensures
        *final(configs_vector) == *old(configs_vector),
        c == spec_get_color(old(configs_vector)@, option),
{
    let value = get_config_value(option, configs_vector);
    match value {
        Some(v) => match Color::from_str(v.as_str()) {
            Some(c) => c,
            None => Color::Red,
        },
        None => Color::Red,
    }
}

/// The given argument, or the default that applies when the argument is
/// absent.
pub open spec fn arg_or(given: Option<Seq<char>>, default: Seq<char>) -> Seq<char> {
    match given {
        Some(v) => v,
        None => default,
    }
}

/// The color a stored name resolves to, with Red as the fallback for an
/// unparseable name.
pub open spec fn color_or_red(v: Seq<char>) -> Color {
    match parse_color(v) {
        Some(c) => c,
        None => Color::Red,
    }
}

/// How an update of `key` to `v` reshapes the record: every entry that
/// carries `key` now stores `v`, every other entry is untouched.
pub open spec fn cfg_set_shape(
    s1: Seq<Configuration>,
    s2: Seq<Configuration>,
    key: CustomizationOptions,
    v: Seq<char>,
) -> bool {
    &&& s2.len() == s1.len()
    &&& forall|i: int| 0 <= i < s1.len() ==> #[trigger] s2[i].option == s1[i].option
    &&& forall|i: int|
        0 <= i < s1.len() && s1[i].option == key ==> (#[trigger] s2[i].value).deep_view() == Some(
            v,
        )
    &&& forall|i: int| 0 <= i < s1.len() && s1[i].option != key ==> #[trigger] s2[i] == s1[i]
}

/// The spec-level view of an optional `&str` argument.
pub open spec fn opt_arg_view(t: Option<&str>) -> Option<Seq<char>> {
    match t {
        Some(s) => Some(s@),
        None => None,
    }
}

/// Stores the given color name (or the literal fallback name when no
/// argument was given) under `text_type`, and returns the color in which
/// the confirmation is to be rendered: the named color, or Red.
pub fn change_text_color(
    config: &mut Vec<Configuration>,
    third_arg: Option<&str>,
    text_type: CustomizationOptions,
) -> (c: Color)
    ensures
        cfg_set_shape(
            old(config)@,
            final(config)@,
            text_type,
            arg_or(opt_arg_view(third_arg), "default"@),
        ),
        c == color_or_red(arg_or(opt_arg_view(third_arg), "default"@)),
{
    let color_name_arg: &str = match third_arg {
        Some(s) => s,
        None => "default",
    };
    store_option_value(config, text_type, color_name_arg);
    match Color::from_str(color_name_arg) {
        Some(c) => c,
        None => Color::Red,
    }
}

/// Stores the given prompt text (or the literal fallback when no
/// argument was given) under `text_type`, and returns the stored text.
pub fn change_prompt_text(
    config: &mut Vec<Configuration>,
    third_arg: Option<&str>,
    text_type: CustomizationOptions,
) -> (t: String)
    ensures
        cfg_set_shape(
            old(config)@,
            final(config)@,
            text_type,
            arg_or(opt_arg_view(third_arg), "Prompt"@),
        ),
        t@ == arg_or(opt_arg_view(third_arg), "Prompt"@),
{
    let text: &str = match third_arg {
        Some(s) => s,
        None => "Prompt",
    };
    store_option_value(config, text_type, text);
    text.to_owned()
}

/// Writes `value` into every entry of the record that carries `key`.
fn store_option_value(config: &mut Vec<Configuration>, key: CustomizationOptions, value: &str)
    ensures
        cfg_set_shape(old(config)@, final(config)@, key, value@),
{
    let mut i: usize = 0;
    while i < config.len()
        invariant
            config@.len() == old(config)@.len(),
            i <= config@.len(),
            forall|j: int| i <= j < config@.len() ==> #[trigger] config@[j] == old(config)@[j],
            forall|j: int| 0 <= j < i ==> #[trigger] config@[j].option == old(config)@[j].option,
            forall|j: int|
                0 <= j < i && old(config)@[j].option == key ==> (#[trigger] config@[j].value).deep_view()
                    == Some(value@),
            forall|j: int|
                0 <= j < i && old(config)@[j].option != key ==> #[trigger] config@[j] == old(
                    config,
                )@[j],
        decreases config@.len() - i,
    {
        if config[i].option == key {
            config[i].value = Some(value.to_owned());
        }
        i += 1;
    }
}

/// The position of an option inside a well-formed record.
pub open spec fn opt_index(o: CustomizationOptions) -> int {
    match o {
        CustomizationOptions::TextColor => 0,
        CustomizationOptions::BackgroundColor => 1,
        CustomizationOptions::FontSize => 2,
        CustomizationOptions::ErrorColor => 3,
        CustomizationOptions::PromptColor => 4,
        CustomizationOptions::PromptText => 5,
    }
}

proof fn lemma_option_at_index(o: CustomizationOptions)
    ensures
        0 <= opt_index(o) < 6,
        option_at(opt_index(o)) == o,
{
}

proof fn lemma_has_option_at(s: Seq<Configuration>, key: CustomizationOptions, i: int)
    requires
        0 <= i < s.len(),
        s[i].option == key,
    ensures
        has_option(s, key),
    decreases i,
{
    if i > 0 {
        lemma_has_option_at(s.drop_first(), key, i - 1);
    }
}

proof fn lemma_cfg_value_after_set(
    s1: Seq<Configuration>,
    s2: Seq<Configuration>,
    key: CustomizationOptions,
    v: Seq<char>,
    q: CustomizationOptions,
)
    requires
        cfg_set_shape(s1, s2, key, v),
    ensures
        q == key ==> cfg_value(s2, q) == (if has_option(s1, key) {
            Some(v)
        } else {
            None::<Seq<char>>
        }),
        q != key ==> cfg_value(s2, q) == cfg_value(s1, q),
    decreases s1.len(),
{
    if s1.len() > 0 {
        let t1 = s1.drop_first();
        let t2 = s2.drop_first();
        assert forall|i: int| 0 <= i < t1.len() implies #[trigger] t2[i].option
            == t1[i].option by {
            assert(s2[i + 1].option == s1[i + 1].option);
        }
        assert forall|i: int|
            0 <= i < t1.len() && t1[i].option == key implies (#[trigger] t2[i].value).deep_view()
            == Some(v) by {
            assert(s1[i + 1].option == key);
            assert(s2[i + 1].value.deep_view() == Some(v));
        }
        assert forall|i: int| 0 <= i < t1.len() && t1[i].option != key implies #[trigger] t2[i]
            == t1[i] by {
            assert(s1[i + 1].option != key);
            assert(s2[i + 1] == s1[i + 1]);
        }
        lemma_cfg_value_after_set(t1, t2, key, v, q);
    }
}

/// Updating one option and then reading the record gives the new value
/// under that option, and exactly the old value under every other
/// option: no cross-key corruption.
pub proof fn lemma_set_then_get(
    s1: Seq<Configuration>,
    s2: Seq<Configuration>,
    key: CustomizationOptions,
    v: Seq<char>,
)
    requires
        cfg_wf(s1),
        cfg_set_shape(s1, s2, key, v),
    ensures
        cfg_wf(s2),
        cfg_value(s2, key) == Some(v),
        forall|q: CustomizationOptions| q != key ==> cfg_value(s2, q) == cfg_value(s1, q),
{
    lemma_option_at_index(key);
    assert(s1[opt_index(key)].option == key);
    lemma_has_option_at(s1, key, opt_index(key));
    lemma_cfg_value_after_set(s1, s2, key, v, key);
    assert forall|q: CustomizationOptions| q != key implies cfg_value(s2, q) == cfg_value(
        s1,
        q,
    ) by {
        lemma_cfg_value_after_set(s1, s2, key, v, q);
    }
}

/// The parameters of the prompt: the configured prompt text (or the
/// literal fallback) and the configured prompt color.
pub fn prompt_parameters(config: &mut Vec<Configuration>) -> (r: (String, Color))
    ensures
        *final(config) == *old(config),
        r.0@ == arg_or(cfg_value(old(config)@, CustomizationOptions::PromptText), "PROMPT"@),
        r.1 == spec_get_color(old(config)@, CustomizationOptions::PromptColor),
{
    let color = get_color(CustomizationOptions::PromptColor, config);
    let text = match get_config_value(CustomizationOptions::PromptText, config) {
        Some(t) => t,
        None => "PROMPT".to_owned(),
    };
    (text, color)
}

/// What the `customize` command decided and changed; the surrounding
/// program renders the matching confirmation or error and persists the
/// record when it was mutated.
#[derive(Debug)]
pub enum CustomizeOutcome {
    /// No option was named: an error is reported, nothing is mutated.
    MissingOption { color: Color },
    /// The option tables were requested instead of a change.
    Help,
    /// A color option now stores the given name; the confirmation is
    /// rendered in the new color.
    ChangedColor { option: CustomizationOptions, color: Color },
    /// A textual option now stores the given text; the confirmation is
    /// rendered in the configured text color.
    ChangedText { option: CustomizationOptions, text: String, color: Color },
    /// The named option does not exist: an error is reported, nothing is
    /// mutated.
    InvalidOption { color: Color },
}

/// Whether the option stores a color name.
pub open spec fn is_color_option(o: CustomizationOptions) -> bool {
    o == CustomizationOptions::TextColor || o == CustomizationOptions::BackgroundColor || o
        == CustomizationOptions::ErrorColor || o == CustomizationOptions::PromptColor
}

/// The second word after `customize`, when one was given.
pub open spec fn second_arg(args: Seq<Seq<char>>) -> Option<Seq<char>> {
    if args.len() >= 2 {
        Some(args[1])
    } else {
        None
    }
}

/// The full contract of the `customize` command: how the record `s1`
/// became `s2` and which outcome is returned, for the given argument
/// words.
pub open spec fn customize_post(
    s1: Seq<Configuration>,
    s2: Seq<Configuration>,
    args: Seq<Seq<char>>,
    r: CustomizeOutcome,
) -> bool {
    if args.len() == 0 {
        s2 == s1 && r == (CustomizeOutcome::MissingOption { color: spec_get_color(s1, CustomizationOptions::TextColor) })
    } else if args[0] == "--help"@ || args[0] == "help"@ {
        s2 == s1 && r == CustomizeOutcome::Help
    } else {
        match parse_option(args[0]) {
            None => s2 == s1 && r == (CustomizeOutcome::InvalidOption { color: spec_get_color(s1, CustomizationOptions::ErrorColor) }),
            Some(opt) => {
                if is_color_option(opt) {
                    let stored = arg_or(second_arg(args), "default"@);
                    cfg_set_shape(s1, s2, opt, stored) && r == (CustomizeOutcome::ChangedColor {
                        option: opt,
                        color: color_or_red(stored),
                    })
                } else if opt == CustomizationOptions::PromptText {
                    let stored = arg_or(second_arg(args), "Prompt"@);
                    cfg_set_shape(s1, s2, opt, stored) && (match r {
                        CustomizeOutcome::ChangedText { option, text, color } => option == opt
                            && text@ == stored && color == spec_get_color(
                            s1,
                            CustomizationOptions::TextColor,
                        ),
                        _ => false,
                    })
                } else {
                    let stored = arg_or(second_arg(args), "default"@);
                    cfg_set_shape(s1, s2, opt, stored) && (match r {
                        CustomizeOutcome::ChangedText { option, text, color } => option == opt
                            && text@ == stored && color == spec_get_color(
                            s1,
                            CustomizationOptions::TextColor,
                        ),
                        _ => false,
                    })
                }
            },
        }
    }
}

/// Resolves and applies the `customize` command: shows the option
/// tables on `--help`, otherwise sets the named option to the given
/// value (or its default) and says how the confirmation is rendered.
pub fn handle_customize(args: &Vec<String>, config: &mut Vec<Configuration>) -> (r:
    CustomizeOutcome)
    ensures
        customize_post(old(config)@, final(config)@, args.deep_view(), r),
{
    if args.len() == 0 {
        let color = get_color(CustomizationOptions::TextColor, config);
        return CustomizeOutcome::MissingOption { color };
    }
    let second: &String = &args[0];
    proof {
        assert(args.deep_view()[0] == args@[0]@);
    }
    if str_eq(second.as_str(), "--help") || str_eq(second.as_str(), "help") {
        return CustomizeOutcome::Help;
    }
    let third: Option<&str> = if args.len() >= 2 {
        proof {
            assert(args.deep_view()[1] == args@[1]@);
        }
        Some(args[1].as_str())
    } else {
        None
    };
    match CustomizationOptions::from_str(second.as_str()) {
        None => {
            let color = get_color(CustomizationOptions::ErrorColor, config);
            CustomizeOutcome::InvalidOption { color }
        },
        Some(CustomizationOptions::TextColor) => {
            let c = change_text_color(config, third, CustomizationOptions::TextColor);
            CustomizeOutcome::ChangedColor { option: CustomizationOptions::TextColor, color: c }
        },
        Some(CustomizationOptions::BackgroundColor) => {
            let c = change_text_color(config, third, CustomizationOptions::BackgroundColor);
            CustomizeOutcome::ChangedColor {
                option: CustomizationOptions::BackgroundColor,
                color: c,
            }
        },
        Some(CustomizationOptions::ErrorColor) => {
            let c = change_text_color(config, third, CustomizationOptions::ErrorColor);
            CustomizeOutcome::ChangedColor { option: CustomizationOptions::ErrorColor, color: c }
        },
        Some(CustomizationOptions::PromptColor) => {
            let c = change_text_color(config, third, CustomizationOptions::PromptColor);
            CustomizeOutcome::ChangedColor { option: CustomizationOptions::PromptColor, color: c }
        },
        Some(CustomizationOptions::PromptText) => {
            let message_color = get_color(CustomizationOptions::TextColor, config);
            let text = change_prompt_text(config, third, CustomizationOptions::PromptText);
            CustomizeOutcome::ChangedText {
                option: CustomizationOptions::PromptText,
                text,
                color: message_color,
            }
        },
        Some(CustomizationOptions::FontSize) => {
            let message_color = get_color(CustomizationOptions::TextColor, config);
            let stored: &str = match third {
                Some(s) => s,
                None => "default",
            };
            store_option_value(config, CustomizationOptions::FontSize, stored);
            CustomizeOutcome::ChangedText {
                option: CustomizationOptions::FontSize,
                text: stored.to_owned(),
                color: message_color,
            }
        },
    }
}

} // verus!
