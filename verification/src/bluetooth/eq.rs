//! The custom equalizer.

use crate::text::same_text;
use vstd::prelude::*;

verus! {

/// The highest value of a band; 50 is flat.
pub const BAND_MAX: u8 = 100;

/// The custom equalizer of one device.
#[derive(Debug, Clone, Copy, PartialEq, Eq, Structural)]
pub struct CustomEq {
    pub enabled: bool,
    pub low: u8,
    pub mid: u8,
    pub high: u8,
}

/// Off and flat.
pub open spec fn eq_off() -> CustomEq {
    CustomEq { enabled: false, low: 50, mid: 50, high: 50 }
}

impl Default for CustomEq {
    /// Off and flat.
    fn default() -> (eq: CustomEq)
        ensures
            eq == eq_off(),
    {
        CustomEq { enabled: false, low: 50, mid: 50, high: 50 }
    }
}

/// The model numbers whose AirPods take a custom equalizer.
pub open spec fn eq_model(number: Seq<char>) -> bool {
    ||| number == "A2698"@
    ||| number == "A2699"@
    ||| number == "A2931"@
    ||| number == "A3047"@
    ||| number == "A3048"@
    ||| number == "A3049"@
    ||| number == "A3050"@
    ||| number == "A3053"@
    ||| number == "A3054"@
    ||| number == "A3055"@
    ||| number == "A3056"@
    ||| number == "A3057"@
    ||| number == "A3063"@
    ||| number == "A3064"@
    ||| number == "A3065"@
}

/// Whether to offer the custom equalizer, from the model number. An unknown
/// model number counts as supported.
pub open spec fn eq_offered(number: Option<Seq<char>>) -> bool {
    match number {
        Some(n) => eq_model(n),
        None => true,
    }
}

/// Whether to offer the custom equalizer, from the model number. An unknown
/// model number counts as supported.
pub fn model_supports_custom_eq(number: Option<&str>) -> (yes: bool)
    ensures
        yes == eq_offered(
            match number {
                Some(n) => Some(n@),
                None => None,
            },
        ),
{
    match number {
        None => true,
        Some(n) => same_text(n, "A2698") || same_text(n, "A2699") || same_text(n, "A2931")
            || same_text(n, "A3047") || same_text(n, "A3048") || same_text(n, "A3049")
            || same_text(n, "A3050") || same_text(n, "A3053") || same_text(n, "A3054")
            || same_text(n, "A3055") || same_text(n, "A3056") || same_text(n, "A3057")
            || same_text(n, "A3063") || same_text(n, "A3064") || same_text(n, "A3065"),
    }
}

/// The equalizer starts off, with flat bands in the middle of their range.
pub proof fn the_equalizer_starts_off_and_flat()
    ensures
        !eq_off().enabled,
        eq_off().low == 50,
        eq_off().mid == 50,
        eq_off().high == 50,
        BAND_MAX == 100,
        eq_offered(None),
{
}

/// An equalizer is offered to exactly the model numbers that are an "A" and one
/// of these numbers on four digits, and where no model number is known.
pub proof fn these_models_take_an_equalizer(model: Seq<char>)
    ensures
        ({
            let digits = model.skip(1);
            let number = crate::text::number_of(digits);
            eq_offered(Some(model)) <==> {
                &&& model.len() == 5
                &&& model[0] == 'A'
                &&& forall|i: int| 0 <= i < 4 ==> '0' <= #[trigger] digits[i] <= '9'
                &&& {
                    ||| number == 2698 || number == 2699 || number == 2931
                    ||| 3047 <= number <= 3050
                    ||| 3053 <= number <= 3057
                    ||| 3063 <= number <= 3065
                }
            }
        }),
        eq_offered(None),
{
    reveal_strlit("A2698");
    reveal_strlit("A2699");
    reveal_strlit("A2931");
    reveal_strlit("A3047");
    reveal_strlit("A3048");
    reveal_strlit("A3049");
    reveal_strlit("A3050");
    reveal_strlit("A3053");
    reveal_strlit("A3054");
    reveal_strlit("A3055");
    reveal_strlit("A3056");
    reveal_strlit("A3057");
    reveal_strlit("A3063");
    reveal_strlit("A3064");
    reveal_strlit("A3065");
    let digits = model.skip(1);
    if model.len() == 5 {
        let d = digits;
        assert(d.drop_last().drop_last().drop_last().drop_last() =~= Seq::<char>::empty());
        reveal_with_fuel(crate::text::number_of, 5);
        assert(crate::text::number_of(d) == 1000 * (d[0] as int - '0' as int) + 100 * (d[1] as int
            - '0' as int) + 10 * (d[2] as int - '0' as int) + (d[3] as int - '0' as int));
        assert(d[0] == model[1] && d[1] == model[2] && d[2] == model[3] && d[3] == model[4]);
        let written = model[0] == 'A' && forall|i: int|
            0 <= i < 4 ==> '0' <= #[trigger] digits[i] <= '9';
        if written {
            assert('0' <= digits[0] <= '9' && '0' <= digits[1] <= '9');
            assert('0' <= digits[2] <= '9' && '0' <= digits[3] <= '9');
            let number = crate::text::number_of(d);
            assert(number == 2698 ==> model =~= "A2698"@);
            assert(number == 2699 ==> model =~= "A2699"@);
            assert(number == 2931 ==> model =~= "A2931"@);
            assert(number == 3047 ==> model =~= "A3047"@);
            assert(number == 3048 ==> model =~= "A3048"@);
            assert(number == 3049 ==> model =~= "A3049"@);
            assert(number == 3050 ==> model =~= "A3050"@);
            assert(number == 3053 ==> model =~= "A3053"@);
            assert(number == 3054 ==> model =~= "A3054"@);
            assert(number == 3055 ==> model =~= "A3055"@);
            assert(number == 3056 ==> model =~= "A3056"@);
            assert(number == 3057 ==> model =~= "A3057"@);
            assert(number == 3063 ==> model =~= "A3063"@);
            assert(number == 3064 ==> model =~= "A3064"@);
            assert(number == 3065 ==> model =~= "A3065"@);
        }
    }
}

} // verus!
