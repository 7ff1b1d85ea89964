use vstd::prelude::*;

use crate::tag::Tag;
use crate::feature_selector::{
    VERTICAL_FRACTIONS, NO_FRACTIONS, UPPER_CASE_PETITE_CAPS, DEFAULT_UPPER_CASE,
    UPPER_CASE_SMALL_CAPS, CONTEXTUAL_ALTERNATES_ON, CONTEXTUAL_ALTERNATES_OFF,
    CASE_SENSITIVE_LAYOUT_ON, CASE_SENSITIVE_LAYOUT_OFF, CONTEXTUAL_LIGATURES_ON,
    CONTEXTUAL_LIGATURES_OFF, CASE_SENSITIVE_SPACING_ON, CASE_SENSITIVE_SPACING_OFF,
    CONTEXTUAL_SWASH_ALTERNATES_ON, CONTEXTUAL_SWASH_ALTERNATES_OFF, RARE_LIGATURES_ON,
    RARE_LIGATURES_OFF, EXPERT_CHARACTERS, DIAGONAL_FRACTIONS, MONOSPACED_TEXT,
    ALT_HALF_WIDTH_TEXT, ALTERNATE_HORIZ_KANA_ON, ALTERNATE_HORIZ_KANA_OFF,
    HISTORICAL_LIGATURES_ON, HISTORICAL_LIGATURES_OFF, HANJA_TO_HANGUL, NO_TRANSLITERATION,
    HOJO_CHARACTERS, HALF_WIDTH_TEXT, CJK_ITALIC_ROMAN_ON, CJK_ITALIC_ROMAN_OFF,
    JIS2004_CHARACTERS, JIS1978_CHARACTERS, JIS1983_CHARACTERS, JIS1990_CHARACTERS,
    COMMON_LIGATURES_ON, COMMON_LIGATURES_OFF, UPPER_CASE_NUMBERS, MATHEMATICAL_GREEK_ON,
    MATHEMATICAL_GREEK_OFF, NLCCHARACTERS, LOWER_CASE_NUMBERS, ORDINALS,
    NORMAL_POSITION, ALT_PROPORTIONAL_TEXT, LOWER_CASE_PETITE_CAPS, DEFAULT_LOWER_CASE,
    PROPORTIONAL_TEXT, PROPORTIONAL_NUMBERS, QUARTER_WIDTH_TEXT, RUBY_KANA_ON,
    RUBY_KANA_OFF, SCIENTIFIC_INFERIORS, LOWER_CASE_SMALL_CAPS, SIMPLIFIED_CHARACTERS,
    STYLISTIC_ALT_ONE_ON, STYLISTIC_ALT_ONE_OFF, STYLISTIC_ALT_TWO_ON, STYLISTIC_ALT_TWO_OFF,
    STYLISTIC_ALT_THREE_ON, STYLISTIC_ALT_THREE_OFF, STYLISTIC_ALT_FOUR_ON,
    STYLISTIC_ALT_FOUR_OFF, STYLISTIC_ALT_FIVE_ON, STYLISTIC_ALT_FIVE_OFF,
    STYLISTIC_ALT_SIX_ON, STYLISTIC_ALT_SIX_OFF, STYLISTIC_ALT_SEVEN_ON,
    STYLISTIC_ALT_SEVEN_OFF, STYLISTIC_ALT_EIGHT_ON, STYLISTIC_ALT_EIGHT_OFF,
    STYLISTIC_ALT_NINE_ON, STYLISTIC_ALT_NINE_OFF, STYLISTIC_ALT_TEN_ON,
    STYLISTIC_ALT_TEN_OFF, STYLISTIC_ALT_ELEVEN_ON, STYLISTIC_ALT_ELEVEN_OFF,
    STYLISTIC_ALT_TWELVE_ON, STYLISTIC_ALT_TWELVE_OFF, STYLISTIC_ALT_THIRTEEN_ON,
    STYLISTIC_ALT_THIRTEEN_OFF, STYLISTIC_ALT_FOURTEEN_ON, STYLISTIC_ALT_FOURTEEN_OFF,
    STYLISTIC_ALT_FIFTEEN_ON, STYLISTIC_ALT_FIFTEEN_OFF, STYLISTIC_ALT_SIXTEEN_ON,
    STYLISTIC_ALT_SIXTEEN_OFF, STYLISTIC_ALT_SEVENTEEN_ON, STYLISTIC_ALT_SEVENTEEN_OFF,
    STYLISTIC_ALT_EIGHTEEN_ON, STYLISTIC_ALT_EIGHTEEN_OFF, STYLISTIC_ALT_NINETEEN_ON,
    STYLISTIC_ALT_NINETEEN_OFF, STYLISTIC_ALT_TWENTY_ON, STYLISTIC_ALT_TWENTY_OFF,
    INFERIORS, SUPERIORS, SWASH_ALTERNATES_ON, SWASH_ALTERNATES_OFF, TITLING_CAPS,
    NO_STYLE_OPTIONS, TRADITIONAL_NAMES_CHARACTERS, MONOSPACED_NUMBERS, TRADITIONAL_CHARACTERS,
    THIRD_WIDTH_TEXT, SUBSTITUTE_VERTICAL_FORMS_ON, SUBSTITUTE_VERTICAL_FORMS_OFF,
    ALTERNATE_VERT_KANA_ON, ALTERNATE_VERT_KANA_OFF, SLASHED_ZERO_ON, SLASHED_ZERO_OFF,
};

verus! {

/// The AAT feature categories that the mapped OpenType features fall
/// under. A category only names a drawer of the Apple font-feature
/// registry; the selector values of a table entry pick the concrete
/// setting within it.
#[derive(Clone, Copy, PartialEq, Eq, Structural, Debug)]
pub enum FeatureType {
    AlternateKana,
    CaseSensitiveLayout,
    CharacterShape,
    ContextualAlternatives,
    Dummy,
    Fractions,
    ItalicCjkRoman,
    LetterCase,
    Ligatures,
    LowerCase,
    MathematicalExtras,
    NumberCase,
    NumberSpacing,
    RubyKana,
    StyleOptions,
    StylisticAlternatives,
    TextSpacing,
    Transliteration,
    TypographicExtras,
    UpperCase,
    VerticalPosition,
    VerticalSubstitution,
}

/// One table entry: an OpenType feature tag together with the AAT
/// feature type it falls under and the selector values that switch the
/// feature on and off.
#[derive(Clone, Copy, PartialEq, Eq, Structural, Debug)]
pub struct FeatureMapping {
    pub ot_feature_tag: Tag,
    pub aat_feature_type: FeatureType,
    pub selector_to_enable: u8,
    pub selector_to_disable: u8,
}

/// The entry whose tag packs to `tag_value`.
pub open spec fn mapping(
    tag_value: u32,
    aat_feature_type: FeatureType,
    selector_to_enable: u8,
    selector_to_disable: u8,
) -> FeatureMapping {
    FeatureMapping {
        ot_feature_tag: Tag { value: tag_value },
        aat_feature_type,
        selector_to_enable,
        selector_to_disable,
    }
}

impl FeatureMapping {
    /// Builds the entry for the tag written as four bytes.
    pub fn new(
        ot_feature_tag: &[u8; 4],
        aat_feature_type: FeatureType,
        selector_to_enable: u8,
        selector_to_disable: u8,
    ) -> (r: FeatureMapping)
        ensures
            r == mapping(
                crate::tag::tag_value(ot_feature_tag@),
                aat_feature_type,
                selector_to_enable,
                selector_to_disable,
            ),
    {
        FeatureMapping {
            ot_feature_tag: Tag::from_bytes(ot_feature_tag),
            aat_feature_type,
            selector_to_enable,
            selector_to_disable,
        }
    }
}

/// The full mapping table, ascending by tag. Each entry's comment names
/// the four characters its tag value packs.
#[verifier::opaque]
pub open spec fn table() -> Seq<FeatureMapping> {
    seq![
        mapping(0x6166_7263, FeatureType::Fractions, VERTICAL_FRACTIONS, NO_FRACTIONS), // "afrc"
        mapping(0x6332_7063, FeatureType::UpperCase, UPPER_CASE_PETITE_CAPS, DEFAULT_UPPER_CASE), // "c2pc"
        mapping(0x6332_7363, FeatureType::UpperCase, UPPER_CASE_SMALL_CAPS, DEFAULT_UPPER_CASE), // "c2sc"
        mapping(0x6361_6C74, FeatureType::ContextualAlternatives, CONTEXTUAL_ALTERNATES_ON, CONTEXTUAL_ALTERNATES_OFF), // "calt"
        mapping(0x6361_7365, FeatureType::CaseSensitiveLayout, CASE_SENSITIVE_LAYOUT_ON, CASE_SENSITIVE_LAYOUT_OFF), // "case"
        mapping(0x636C_6967, FeatureType::Ligatures, CONTEXTUAL_LIGATURES_ON, CONTEXTUAL_LIGATURES_OFF), // "clig"
        mapping(0x6370_7370, FeatureType::CaseSensitiveLayout, CASE_SENSITIVE_SPACING_ON, CASE_SENSITIVE_SPACING_OFF), // "cpsp"
        mapping(0x6373_7768, FeatureType::ContextualAlternatives, CONTEXTUAL_SWASH_ALTERNATES_ON, CONTEXTUAL_SWASH_ALTERNATES_OFF), // "cswh"
        mapping(0x646C_6967, FeatureType::Ligatures, RARE_LIGATURES_ON, RARE_LIGATURES_OFF), // "dlig"
        mapping(0x6578_7074, FeatureType::CharacterShape, EXPERT_CHARACTERS, 16), // "expt"
        mapping(0x6672_6163, FeatureType::Fractions, DIAGONAL_FRACTIONS, NO_FRACTIONS), // "frac"
        mapping(0x6677_6964, FeatureType::TextSpacing, MONOSPACED_TEXT, 7), // "fwid"
        mapping(0x6861_6C74, FeatureType::TextSpacing, ALT_HALF_WIDTH_TEXT, 7), // "halt"
        mapping(0x6869_7374, FeatureType::Dummy, 0, 1), // "hist"
        mapping(0x686B_6E61, FeatureType::AlternateKana, ALTERNATE_HORIZ_KANA_ON, ALTERNATE_HORIZ_KANA_OFF), // "hkna"
        mapping(0x686C_6967, FeatureType::Ligatures, HISTORICAL_LIGATURES_ON, HISTORICAL_LIGATURES_OFF), // "hlig"
        mapping(0x686E_676C, FeatureType::Transliteration, HANJA_TO_HANGUL, NO_TRANSLITERATION), // "hngl"
        mapping(0x686F_6A6F, FeatureType::CharacterShape, HOJO_CHARACTERS, 16), // "hojo"
        mapping(0x6877_6964, FeatureType::TextSpacing, HALF_WIDTH_TEXT, 7), // "hwid"
        mapping(0x6974_616C, FeatureType::ItalicCjkRoman, CJK_ITALIC_ROMAN_ON, CJK_ITALIC_ROMAN_OFF), // "ital"
        mapping(0x6A70_3034, FeatureType::CharacterShape, JIS2004_CHARACTERS, 16), // "jp04"
        mapping(0x6A70_3738, FeatureType::CharacterShape, JIS1978_CHARACTERS, 16), // "jp78"
        mapping(0x6A70_3833, FeatureType::CharacterShape, JIS1983_CHARACTERS, 16), // "jp83"
        mapping(0x6A70_3930, FeatureType::CharacterShape, JIS1990_CHARACTERS, 16), // "jp90"
        mapping(0x6C69_6761, FeatureType::Ligatures, COMMON_LIGATURES_ON, COMMON_LIGATURES_OFF), // "liga"
        mapping(0x6C6E_756D, FeatureType::NumberCase, UPPER_CASE_NUMBERS, 2), // "lnum"
        mapping(0x6D67_726B, FeatureType::MathematicalExtras, MATHEMATICAL_GREEK_ON, MATHEMATICAL_GREEK_OFF), // "mgrk"
        mapping(0x6E6C_636B, FeatureType::CharacterShape, NLCCHARACTERS, 16), // "nlck"
        mapping(0x6F6E_756D, FeatureType::NumberCase, LOWER_CASE_NUMBERS, 2), // "onum"
        mapping(0x6F72_646E, FeatureType::VerticalPosition, ORDINALS, NORMAL_POSITION), // "ordn"
        mapping(0x7061_6C74, FeatureType::TextSpacing, ALT_PROPORTIONAL_TEXT, 7), // "palt"
        mapping(0x7063_6170, FeatureType::LowerCase, LOWER_CASE_PETITE_CAPS, DEFAULT_LOWER_CASE), // "pcap"
        mapping(0x706B_6E61, FeatureType::TextSpacing, PROPORTIONAL_TEXT, 7), // "pkna"
        mapping(0x706E_756D, FeatureType::NumberSpacing, PROPORTIONAL_NUMBERS, 4), // "pnum"
        mapping(0x7077_6964, FeatureType::TextSpacing, PROPORTIONAL_TEXT, 7), // "pwid"
        mapping(0x7177_6964, FeatureType::TextSpacing, QUARTER_WIDTH_TEXT, 7), // "qwid"
        mapping(0x7275_6279, FeatureType::RubyKana, RUBY_KANA_ON, RUBY_KANA_OFF), // "ruby"
        mapping(0x7369_6E66, FeatureType::VerticalPosition, SCIENTIFIC_INFERIORS, NORMAL_POSITION), // "sinf"
        mapping(0x736D_6370, FeatureType::LowerCase, LOWER_CASE_SMALL_CAPS, DEFAULT_LOWER_CASE), // "smcp"
        mapping(0x736D_706C, FeatureType::CharacterShape, SIMPLIFIED_CHARACTERS, 16), // "smpl"
        mapping(0x7373_3031, FeatureType::StylisticAlternatives, STYLISTIC_ALT_ONE_ON, STYLISTIC_ALT_ONE_OFF), // "ss01"
        mapping(0x7373_3032, FeatureType::StylisticAlternatives, STYLISTIC_ALT_TWO_ON, STYLISTIC_ALT_TWO_OFF), // "ss02"
        mapping(0x7373_3033, FeatureType::StylisticAlternatives, STYLISTIC_ALT_THREE_ON, STYLISTIC_ALT_THREE_OFF), // "ss03"
        mapping(0x7373_3034, FeatureType::StylisticAlternatives, STYLISTIC_ALT_FOUR_ON, STYLISTIC_ALT_FOUR_OFF), // "ss04"
        mapping(0x7373_3035, FeatureType::StylisticAlternatives, STYLISTIC_ALT_FIVE_ON, STYLISTIC_ALT_FIVE_OFF), // "ss05"
        mapping(0x7373_3036, FeatureType::StylisticAlternatives, STYLISTIC_ALT_SIX_ON, STYLISTIC_ALT_SIX_OFF), // "ss06"
        mapping(0x7373_3037, FeatureType::StylisticAlternatives, STYLISTIC_ALT_SEVEN_ON, STYLISTIC_ALT_SEVEN_OFF), // "ss07"
        mapping(0x7373_3038, FeatureType::StylisticAlternatives, STYLISTIC_ALT_EIGHT_ON, STYLISTIC_ALT_EIGHT_OFF), // "ss08"
        mapping(0x7373_3039, FeatureType::StylisticAlternatives, STYLISTIC_ALT_NINE_ON, STYLISTIC_ALT_NINE_OFF), // "ss09"
        mapping(0x7373_3130, FeatureType::StylisticAlternatives, STYLISTIC_ALT_TEN_ON, STYLISTIC_ALT_TEN_OFF), // "ss10"
        mapping(0x7373_3131, FeatureType::StylisticAlternatives, STYLISTIC_ALT_ELEVEN_ON, STYLISTIC_ALT_ELEVEN_OFF), // "ss11"
        mapping(0x7373_3132, FeatureType::StylisticAlternatives, STYLISTIC_ALT_TWELVE_ON, STYLISTIC_ALT_TWELVE_OFF), // "ss12"
        mapping(0x7373_3133, FeatureType::StylisticAlternatives, STYLISTIC_ALT_THIRTEEN_ON, STYLISTIC_ALT_THIRTEEN_OFF), // "ss13"
        mapping(0x7373_3134, FeatureType::StylisticAlternatives, STYLISTIC_ALT_FOURTEEN_ON, STYLISTIC_ALT_FOURTEEN_OFF), // "ss14"
        mapping(0x7373_3135, FeatureType::StylisticAlternatives, STYLISTIC_ALT_FIFTEEN_ON, STYLISTIC_ALT_FIFTEEN_OFF), // "ss15"
        mapping(0x7373_3136, FeatureType::StylisticAlternatives, STYLISTIC_ALT_SIXTEEN_ON, STYLISTIC_ALT_SIXTEEN_OFF), // "ss16"
        mapping(0x7373_3137, FeatureType::StylisticAlternatives, STYLISTIC_ALT_SEVENTEEN_ON, STYLISTIC_ALT_SEVENTEEN_OFF), // "ss17"
        mapping(0x7373_3138, FeatureType::StylisticAlternatives, STYLISTIC_ALT_EIGHTEEN_ON, STYLISTIC_ALT_EIGHTEEN_OFF), // "ss18"
        mapping(0x7373_3139, FeatureType::StylisticAlternatives, STYLISTIC_ALT_NINETEEN_ON, STYLISTIC_ALT_NINETEEN_OFF), // "ss19"
        mapping(0x7373_3230, FeatureType::StylisticAlternatives, STYLISTIC_ALT_TWENTY_ON, STYLISTIC_ALT_TWENTY_OFF), // "ss20"
        mapping(0x7375_6273, FeatureType::VerticalPosition, INFERIORS, NORMAL_POSITION), // "subs"
        mapping(0x7375_7073, FeatureType::VerticalPosition, SUPERIORS, NORMAL_POSITION), // "sups"
        mapping(0x7377_7368, FeatureType::ContextualAlternatives, SWASH_ALTERNATES_ON, SWASH_ALTERNATES_OFF), // "swsh"
        mapping(0x7469_746C, FeatureType::StyleOptions, TITLING_CAPS, NO_STYLE_OPTIONS), // "titl"
        mapping(0x746E_616D, FeatureType::CharacterShape, TRADITIONAL_NAMES_CHARACTERS, 16), // "tnam"
        mapping(0x746E_756D, FeatureType::NumberSpacing, MONOSPACED_NUMBERS, 4), // "tnum"
        mapping(0x7472_6164, FeatureType::CharacterShape, TRADITIONAL_CHARACTERS, 16), // "trad"
        mapping(0x7477_6964, FeatureType::TextSpacing, THIRD_WIDTH_TEXT, 7), // "twid"
        mapping(0x756E_6963, FeatureType::LetterCase, 14, 15), // "unic"
        mapping(0x7661_6C74, FeatureType::TextSpacing, ALT_PROPORTIONAL_TEXT, 7), // "valt"
        mapping(0x7665_7274, FeatureType::VerticalSubstitution, SUBSTITUTE_VERTICAL_FORMS_ON, SUBSTITUTE_VERTICAL_FORMS_OFF), // "vert"
        mapping(0x7668_616C, FeatureType::TextSpacing, ALT_HALF_WIDTH_TEXT, 7), // "vhal"
        mapping(0x766B_6E61, FeatureType::AlternateKana, ALTERNATE_VERT_KANA_ON, ALTERNATE_VERT_KANA_OFF), // "vkna"
        mapping(0x7670_616C, FeatureType::TextSpacing, ALT_PROPORTIONAL_TEXT, 7), // "vpal"
        mapping(0x7672_7432, FeatureType::VerticalSubstitution, SUBSTITUTE_VERTICAL_FORMS_ON, SUBSTITUTE_VERTICAL_FORMS_OFF), // "vrt2"
        mapping(0x7672_7472, FeatureType::VerticalSubstitution, 2, 3), // "vrtr"
        mapping(0x7A65_726F, FeatureType::TypographicExtras, SLASHED_ZERO_ON, SLASHED_ZERO_OFF), // "zero"
    ]
}

/// Pushes one entry onto the table being built; the tag is given already
/// packed into its `u32`.
fn push_mapping(
    v: &mut Vec<FeatureMapping>,
    tag_value: u32,
    aat_feature_type: FeatureType,
    selector_to_enable: u8,
    selector_to_disable: u8,
)
    ensures
        final(v)@ == old(v)@.push(mapping(
            tag_value,
            aat_feature_type,
            selector_to_enable,
            selector_to_disable,
        )),
{
    v.push(FeatureMapping {
        ot_feature_tag: Tag { value: tag_value },
        aat_feature_type,
        selector_to_enable,
        selector_to_disable,
    });
}

/// Builds the mapping table, entry for entry as `table()` lists it.
#[verifier::rlimit(100)]
pub fn feature_mappings() -> (r: Vec<FeatureMapping>)
    ensures
        r@ == table(),
{
    proof {
        reveal(table);
    }
    let mut v: Vec<FeatureMapping> = Vec::new();
    push_mapping(&mut v, 0x6166_7263, FeatureType::Fractions, VERTICAL_FRACTIONS, NO_FRACTIONS); // "afrc"
    push_mapping(&mut v, 0x6332_7063, FeatureType::UpperCase, UPPER_CASE_PETITE_CAPS, DEFAULT_UPPER_CASE); // "c2pc"
    push_mapping(&mut v, 0x6332_7363, FeatureType::UpperCase, UPPER_CASE_SMALL_CAPS, DEFAULT_UPPER_CASE); // "c2sc"
    push_mapping(&mut v, 0x6361_6C74, FeatureType::ContextualAlternatives, CONTEXTUAL_ALTERNATES_ON, CONTEXTUAL_ALTERNATES_OFF); // "calt"
    push_mapping(&mut v, 0x6361_7365, FeatureType::CaseSensitiveLayout, CASE_SENSITIVE_LAYOUT_ON, CASE_SENSITIVE_LAYOUT_OFF); // "case"
    push_mapping(&mut v, 0x636C_6967, FeatureType::Ligatures, CONTEXTUAL_LIGATURES_ON, CONTEXTUAL_LIGATURES_OFF); // "clig"
    push_mapping(&mut v, 0x6370_7370, FeatureType::CaseSensitiveLayout, CASE_SENSITIVE_SPACING_ON, CASE_SENSITIVE_SPACING_OFF); // "cpsp"
    push_mapping(&mut v, 0x6373_7768, FeatureType::ContextualAlternatives, CONTEXTUAL_SWASH_ALTERNATES_ON, CONTEXTUAL_SWASH_ALTERNATES_OFF); // "cswh"
    push_mapping(&mut v, 0x646C_6967, FeatureType::Ligatures, RARE_LIGATURES_ON, RARE_LIGATURES_OFF); // "dlig"
    push_mapping(&mut v, 0x6578_7074, FeatureType::CharacterShape, EXPERT_CHARACTERS, 16); // "expt"
    push_mapping(&mut v, 0x6672_6163, FeatureType::Fractions, DIAGONAL_FRACTIONS, NO_FRACTIONS); // "frac"
    push_mapping(&mut v, 0x6677_6964, FeatureType::TextSpacing, MONOSPACED_TEXT, 7); // "fwid"
    push_mapping(&mut v, 0x6861_6C74, FeatureType::TextSpacing, ALT_HALF_WIDTH_TEXT, 7); // "halt"
    push_mapping(&mut v, 0x6869_7374, FeatureType::Dummy, 0, 1); // "hist"
    push_mapping(&mut v, 0x686B_6E61, FeatureType::AlternateKana, ALTERNATE_HORIZ_KANA_ON, ALTERNATE_HORIZ_KANA_OFF); // "hkna"
    push_mapping(&mut v, 0x686C_6967, FeatureType::Ligatures, HISTORICAL_LIGATURES_ON, HISTORICAL_LIGATURES_OFF); // "hlig"
    push_mapping(&mut v, 0x686E_676C, FeatureType::Transliteration, HANJA_TO_HANGUL, NO_TRANSLITERATION); // "hngl"
    push_mapping(&mut v, 0x686F_6A6F, FeatureType::CharacterShape, HOJO_CHARACTERS, 16); // "hojo"
    push_mapping(&mut v, 0x6877_6964, FeatureType::TextSpacing, HALF_WIDTH_TEXT, 7); // "hwid"
    push_mapping(&mut v, 0x6974_616C, FeatureType::ItalicCjkRoman, CJK_ITALIC_ROMAN_ON, CJK_ITALIC_ROMAN_OFF); // "ital"
    push_mapping(&mut v, 0x6A70_3034, FeatureType::CharacterShape, JIS2004_CHARACTERS, 16); // "jp04"
    push_mapping(&mut v, 0x6A70_3738, FeatureType::CharacterShape, JIS1978_CHARACTERS, 16); // "jp78"
    push_mapping(&mut v, 0x6A70_3833, FeatureType::CharacterShape, JIS1983_CHARACTERS, 16); // "jp83"
    push_mapping(&mut v, 0x6A70_3930, FeatureType::CharacterShape, JIS1990_CHARACTERS, 16); // "jp90"
    push_mapping(&mut v, 0x6C69_6761, FeatureType::Ligatures, COMMON_LIGATURES_ON, COMMON_LIGATURES_OFF); // "liga"
    push_mapping(&mut v, 0x6C6E_756D, FeatureType::NumberCase, UPPER_CASE_NUMBERS, 2); // "lnum"
    push_mapping(&mut v, 0x6D67_726B, FeatureType::MathematicalExtras, MATHEMATICAL_GREEK_ON, MATHEMATICAL_GREEK_OFF); // "mgrk"
    push_mapping(&mut v, 0x6E6C_636B, FeatureType::CharacterShape, NLCCHARACTERS, 16); // "nlck"
    push_mapping(&mut v, 0x6F6E_756D, FeatureType::NumberCase, LOWER_CASE_NUMBERS, 2); // "onum"
    push_mapping(&mut v, 0x6F72_646E, FeatureType::VerticalPosition, ORDINALS, NORMAL_POSITION); // "ordn"
    push_mapping(&mut v, 0x7061_6C74, FeatureType::TextSpacing, ALT_PROPORTIONAL_TEXT, 7); // "palt"
    push_mapping(&mut v, 0x7063_6170, FeatureType::LowerCase, LOWER_CASE_PETITE_CAPS, DEFAULT_LOWER_CASE); // "pcap"
    push_mapping(&mut v, 0x706B_6E61, FeatureType::TextSpacing, PROPORTIONAL_TEXT, 7); // "pkna"
    push_mapping(&mut v, 0x706E_756D, FeatureType::NumberSpacing, PROPORTIONAL_NUMBERS, 4); // "pnum"
    push_mapping(&mut v, 0x7077_6964, FeatureType::TextSpacing, PROPORTIONAL_TEXT, 7); // "pwid"
    push_mapping(&mut v, 0x7177_6964, FeatureType::TextSpacing, QUARTER_WIDTH_TEXT, 7); // "qwid"
    push_mapping(&mut v, 0x7275_6279, FeatureType::RubyKana, RUBY_KANA_ON, RUBY_KANA_OFF); // "ruby"
    push_mapping(&mut v, 0x7369_6E66, FeatureType::VerticalPosition, SCIENTIFIC_INFERIORS, NORMAL_POSITION); // "sinf"
    push_mapping(&mut v, 0x736D_6370, FeatureType::LowerCase, LOWER_CASE_SMALL_CAPS, DEFAULT_LOWER_CASE); // "smcp"
    push_mapping(&mut v, 0x736D_706C, FeatureType::CharacterShape, SIMPLIFIED_CHARACTERS, 16); // "smpl"
    push_mapping(&mut v, 0x7373_3031, FeatureType::StylisticAlternatives, STYLISTIC_ALT_ONE_ON, STYLISTIC_ALT_ONE_OFF); // "ss01"
    push_mapping(&mut v, 0x7373_3032, FeatureType::StylisticAlternatives, STYLISTIC_ALT_TWO_ON, STYLISTIC_ALT_TWO_OFF); // "ss02"
    push_mapping(&mut v, 0x7373_3033, FeatureType::StylisticAlternatives, STYLISTIC_ALT_THREE_ON, STYLISTIC_ALT_THREE_OFF); // "ss03"
    push_mapping(&mut v, 0x7373_3034, FeatureType::StylisticAlternatives, STYLISTIC_ALT_FOUR_ON, STYLISTIC_ALT_FOUR_OFF); // "ss04"
    push_mapping(&mut v, 0x7373_3035, FeatureType::StylisticAlternatives, STYLISTIC_ALT_FIVE_ON, STYLISTIC_ALT_FIVE_OFF); // "ss05"
    push_mapping(&mut v, 0x7373_3036, FeatureType::StylisticAlternatives, STYLISTIC_ALT_SIX_ON, STYLISTIC_ALT_SIX_OFF); // "ss06"
    push_mapping(&mut v, 0x7373_3037, FeatureType::StylisticAlternatives, STYLISTIC_ALT_SEVEN_ON, STYLISTIC_ALT_SEVEN_OFF); // "ss07"
    push_mapping(&mut v, 0x7373_3038, FeatureType::StylisticAlternatives, STYLISTIC_ALT_EIGHT_ON, STYLISTIC_ALT_EIGHT_OFF); // "ss08"
    push_mapping(&mut v, 0x7373_3039, FeatureType::StylisticAlternatives, STYLISTIC_ALT_NINE_ON, STYLISTIC_ALT_NINE_OFF); // "ss09"
    push_mapping(&mut v, 0x7373_3130, FeatureType::StylisticAlternatives, STYLISTIC_ALT_TEN_ON, STYLISTIC_ALT_TEN_OFF); // "ss10"
    push_mapping(&mut v, 0x7373_3131, FeatureType::StylisticAlternatives, STYLISTIC_ALT_ELEVEN_ON, STYLISTIC_ALT_ELEVEN_OFF); // "ss11"
    push_mapping(&mut v, 0x7373_3132, FeatureType::StylisticAlternatives, STYLISTIC_ALT_TWELVE_ON, STYLISTIC_ALT_TWELVE_OFF); // "ss12"
    push_mapping(&mut v, 0x7373_3133, FeatureType::StylisticAlternatives, STYLISTIC_ALT_THIRTEEN_ON, STYLISTIC_ALT_THIRTEEN_OFF); // "ss13"
    push_mapping(&mut v, 0x7373_3134, FeatureType::StylisticAlternatives, STYLISTIC_ALT_FOURTEEN_ON, STYLISTIC_ALT_FOURTEEN_OFF); // "ss14"
    push_mapping(&mut v, 0x7373_3135, FeatureType::StylisticAlternatives, STYLISTIC_ALT_FIFTEEN_ON, STYLISTIC_ALT_FIFTEEN_OFF); // "ss15"
    push_mapping(&mut v, 0x7373_3136, FeatureType::StylisticAlternatives, STYLISTIC_ALT_SIXTEEN_ON, STYLISTIC_ALT_SIXTEEN_OFF); // "ss16"
    push_mapping(&mut v, 0x7373_3137, FeatureType::StylisticAlternatives, STYLISTIC_ALT_SEVENTEEN_ON, STYLISTIC_ALT_SEVENTEEN_OFF); // "ss17"
    push_mapping(&mut v, 0x7373_3138, FeatureType::StylisticAlternatives, STYLISTIC_ALT_EIGHTEEN_ON, STYLISTIC_ALT_EIGHTEEN_OFF); // "ss18"
    push_mapping(&mut v, 0x7373_3139, FeatureType::StylisticAlternatives, STYLISTIC_ALT_NINETEEN_ON, STYLISTIC_ALT_NINETEEN_OFF); // "ss19"
    push_mapping(&mut v, 0x7373_3230, FeatureType::StylisticAlternatives, STYLISTIC_ALT_TWENTY_ON, STYLISTIC_ALT_TWENTY_OFF); // "ss20"
    push_mapping(&mut v, 0x7375_6273, FeatureType::VerticalPosition, INFERIORS, NORMAL_POSITION); // "subs"
    push_mapping(&mut v, 0x7375_7073, FeatureType::VerticalPosition, SUPERIORS, NORMAL_POSITION); // "sups"
    push_mapping(&mut v, 0x7377_7368, FeatureType::ContextualAlternatives, SWASH_ALTERNATES_ON, SWASH_ALTERNATES_OFF); // "swsh"
    push_mapping(&mut v, 0x7469_746C, FeatureType::StyleOptions, TITLING_CAPS, NO_STYLE_OPTIONS); // "titl"
    push_mapping(&mut v, 0x746E_616D, FeatureType::CharacterShape, TRADITIONAL_NAMES_CHARACTERS, 16); // "tnam"
    push_mapping(&mut v, 0x746E_756D, FeatureType::NumberSpacing, MONOSPACED_NUMBERS, 4); // "tnum"
    push_mapping(&mut v, 0x7472_6164, FeatureType::CharacterShape, TRADITIONAL_CHARACTERS, 16); // "trad"
    push_mapping(&mut v, 0x7477_6964, FeatureType::TextSpacing, THIRD_WIDTH_TEXT, 7); // "twid"
    push_mapping(&mut v, 0x756E_6963, FeatureType::LetterCase, 14, 15); // "unic"
    push_mapping(&mut v, 0x7661_6C74, FeatureType::TextSpacing, ALT_PROPORTIONAL_TEXT, 7); // "valt"
    push_mapping(&mut v, 0x7665_7274, FeatureType::VerticalSubstitution, SUBSTITUTE_VERTICAL_FORMS_ON, SUBSTITUTE_VERTICAL_FORMS_OFF); // "vert"
    push_mapping(&mut v, 0x7668_616C, FeatureType::TextSpacing, ALT_HALF_WIDTH_TEXT, 7); // "vhal"
    push_mapping(&mut v, 0x766B_6E61, FeatureType::AlternateKana, ALTERNATE_VERT_KANA_ON, ALTERNATE_VERT_KANA_OFF); // "vkna"
    push_mapping(&mut v, 0x7670_616C, FeatureType::TextSpacing, ALT_PROPORTIONAL_TEXT, 7); // "vpal"
    push_mapping(&mut v, 0x7672_7432, FeatureType::VerticalSubstitution, SUBSTITUTE_VERTICAL_FORMS_ON, SUBSTITUTE_VERTICAL_FORMS_OFF); // "vrt2"
    push_mapping(&mut v, 0x7672_7472, FeatureType::VerticalSubstitution, 2, 3); // "vrtr"
    push_mapping(&mut v, 0x7A65_726F, FeatureType::TypographicExtras, SLASHED_ZERO_ON, SLASHED_ZERO_OFF); // "zero"
    v
}

/// Holds when the tags of `s` stand in strictly ascending order. This is
/// the table invariant: it both keeps binary search sound and rules out
/// a tag occurring twice.
pub open spec fn tags_strictly_ascending(s: Seq<FeatureMapping>) -> bool {
    forall|i: int, j: int|
        0 <= i < j < s.len() ==> s[i].ot_feature_tag.value < s[j].ot_feature_tag.value
}

/// Holds when each entry's tag is below its successor's.
spec fn adjacent_tags_ascending(s: Seq<FeatureMapping>) -> bool {
    forall|i: int|
        0 <= i && i + 1 < s.len() ==> (#[trigger] s[i]).ot_feature_tag.value
            < (#[trigger] s[i + 1]).ot_feature_tag.value
}

/// Entries that ascend neighbour by neighbour ascend between any two
/// positions.
proof fn lemma_ascending_chain(s: Seq<FeatureMapping>, i: int, j: int)
    requires
        adjacent_tags_ascending(s),
        0 <= i < j < s.len(),
    ensures
        s[i].ot_feature_tag.value < s[j].ot_feature_tag.value,
    decreases j - i,
{
    if i + 1 < j {
        lemma_ascending_chain(s, i, j - 1);
    }
    assert(s[j - 1].ot_feature_tag.value < s[(j - 1) + 1].ot_feature_tag.value);
}

/// The table's tags occur in strictly ascending order: no entry stands
/// out of place, and no tag occurs twice.
#[verifier::rlimit(100)]
pub proof fn lemma_table_tags_ascending()
    ensures
        tags_strictly_ascending(table()),
{
    assert(adjacent_tags_ascending(table())) by {
        reveal(table);
    }
    assert forall|i: int, j: int| 0 <= i < j < table().len() implies
        table()[i].ot_feature_tag.value < table()[j].ot_feature_tag.value by {
        lemma_ascending_chain(table(), i, j);
    }
}

/// What a lookup of `tag` may answer: the table entry carrying `tag`
/// when one exists, and "not found" exactly when none does.
pub open spec fn lookup_matches(tag: Tag, r: Option<FeatureMapping>) -> bool {
    match r {
        Some(m) => m.ot_feature_tag == tag && exists|i: int|
            0 <= i < table().len() && (#[trigger] table()[i]) == m,
        None => forall|i: int|
            0 <= i < table().len() ==> (#[trigger] table()[i]).ot_feature_tag != tag,
    }
}

/// The feature-mapping table, held ready for queries.
pub struct FeatureMappingTable {
    entries: Vec<FeatureMapping>,
}

impl FeatureMappingTable {
    /// The held entries are exactly those of `table()`.
    pub closed spec fn wf(&self) -> bool {
        self.entries@ == table()
    }

    /// Builds the table.
    pub fn new() -> (r: FeatureMappingTable)
        ensures
            r.wf(),
    {
        FeatureMappingTable { entries: feature_mappings() }
    }

    /// Binary search for the entry carrying `tag`. Absence is an
    /// expected outcome, not an error: most OpenType tags have no AAT
    /// equivalent.
    pub fn lookup(&self, tag: Tag) -> (r: Option<FeatureMapping>)
        requires
            self.wf(),
        ensures
            lookup_matches(tag, r),
    {
        proof {
            lemma_table_tags_ascending();
        }
        let mut lo: usize = 0;
        let mut hi: usize = self.entries.len();
        while lo < hi
            invariant
                self.wf(),
                lo <= hi <= self.entries@.len(),
                tags_strictly_ascending(self.entries@),
                forall|i: int| 0 <= i < lo ==> (#[trigger] self.entries@[i]).ot_feature_tag.value
                    < tag.value,
                forall|i: int| hi <= i < self.entries@.len() ==> tag.value
                    < (#[trigger] self.entries@[i]).ot_feature_tag.value,
            decreases hi - lo,
        {
            let mid = lo + (hi - lo) / 2;
            let entry = self.entries[mid];
            if entry.ot_feature_tag.value < tag.value {
                lo = mid + 1;
            } else if tag.value < entry.ot_feature_tag.value {
                hi = mid;
            } else {
                assert(table()[mid as int] == entry);
                return Some(entry);
            }
        }
        None
    }
}

/// Looks `tag` up in the feature-mapping table.
pub fn lookup(tag: Tag) -> (r: Option<FeatureMapping>)
    ensures
        lookup_matches(tag, r),
{
    let mappings = FeatureMappingTable::new();
    mappings.lookup(tag)
}

/// A tag that occurs in the table occurs there once: the entry it names
/// is determined.
pub proof fn lemma_tag_determines_entry(i: int, j: int)
    requires
        0 <= i < table().len(),
        0 <= j < table().len(),
        table()[i].ot_feature_tag == table()[j].ot_feature_tag,
    ensures
        i == j,
{
    lemma_table_tags_ascending();
}

/// Round trip: an answer fitting a tag that the table carries at
/// position `i` can only be that very entry.
pub proof fn lemma_lookup_round_trip(i: int, r: Option<FeatureMapping>)
    requires
        0 <= i < table().len(),
        lookup_matches(table()[i].ot_feature_tag, r),
    ensures
        r == Some(table()[i]),
{
    lemma_table_tags_ascending();
    if let Some(m) = r {
        let j = choose|j: int| 0 <= j < table().len() && (#[trigger] table()[j]) == m;
        lemma_tag_determines_entry(i, j);
    }
}

/// A tag that the table does not carry can only be answered "not
/// found".
pub proof fn lemma_lookup_absent(tag: Tag, r: Option<FeatureMapping>)
    requires
        forall|i: int| 0 <= i < table().len() ==> (#[trigger] table()[i]).ot_feature_tag != tag,
        lookup_matches(tag, r),
    ensures
        r is None,
{
}

} // verus!
