//! Decisions of the REST API: which requests are refused and with what, and
//! what an accepted request does to the device state.

use vstd::prelude::*;
use crate::device::buttons::{press_view, release_view, ButtonState};
use crate::device::neo::{NeoInputState, NeoTouchPoint, RgbColor};
use crate::device::plus::KnobIndex;

verus! {

/// Why a request is refused.
#[derive(Debug, Clone, Copy, PartialEq, Eq, Structural)]
pub enum ApiError {
    /// The button id is not below the number of buttons (404).
    ButtonNotFound,
    /// The knob id is above 3 (404).
    KnobNotFound,
    /// The device has no knobs or touchscreen: it is not a Stream Deck + (400).
    NotPlusDevice,
    /// The device has no LEDs: it is not a Stream Deck Neo (400).
    NotNeoDevice,
    /// The button exists but has no LED (400).
    NoLed(u8),
}

/// HTTP status of a refusal: 404 for an unknown button or knob, 400 otherwise.
pub open spec fn status_spec(e: ApiError) -> u16 {
    match e {
        ApiError::ButtonNotFound | ApiError::KnobNotFound => 404,
        _ => 400,
    }
}

impl ApiError {
    /// HTTP status code of the refusal.
    pub fn status_code(&self) -> (r: u16)
        ensures
            r == status_spec(*self),
    {
        match self {
            ApiError::ButtonNotFound | ApiError::KnobNotFound => 404,
            _ => 400,
        }
    }
}

/// Checks a button id against the number of buttons.
pub fn check_button(num_buttons: u8, id: u8) -> (r: Result<(), ApiError>)
    ensures
        r == (if id < num_buttons { Ok(()) } else { Err(ApiError::ButtonNotFound) }),
{
    if id >= num_buttons {
        Err(ApiError::ButtonNotFound)
    } else {
        Ok(())
    }
}

/// Presses a button on request: refused for an unknown id, which changes nothing.
pub fn press_button_request(buttons: &mut ButtonState, id: u8) -> (r: Result<(), ApiError>)
    ensures
        id < old(buttons)@.num_buttons ==> r == Ok::<(), ApiError>(()) && final(buttons)@ == press_view(old(buttons)@, id),
        id >= old(buttons)@.num_buttons ==> r == Err::<(), ApiError>(ApiError::ButtonNotFound) && final(buttons)@ == old(buttons)@,
{
    if id >= buttons.num_buttons() {
        return Err(ApiError::ButtonNotFound);
    }
    buttons.press(id);
    Ok(())
}

/// Releases a button on request: refused for an unknown id, which changes nothing.
pub fn release_button_request(buttons: &mut ButtonState, id: u8) -> (r: Result<(), ApiError>)
    ensures
        id < old(buttons)@.num_buttons ==> r == Ok::<(), ApiError>(()) && final(buttons)@ == release_view(old(buttons)@, id),
        id >= old(buttons)@.num_buttons ==> r == Err::<(), ApiError>(ApiError::ButtonNotFound) && final(buttons)@ == old(buttons)@,
{
    if id >= buttons.num_buttons() {
        return Err(ApiError::ButtonNotFound);
    }
    buttons.release(id);
    Ok(())
}

/// Checks a knob request: the id first (0-3), then that the device has knobs.
/// On success, the knob that the id names.
pub fn check_knob(has_knobs: bool, id: u8) -> (r: Result<KnobIndex, ApiError>)
    ensures
        id > 3 ==> r == Err::<KnobIndex, ApiError>(ApiError::KnobNotFound),
        id <= 3 && !has_knobs ==> r == Err::<KnobIndex, ApiError>(ApiError::NotPlusDevice),
        id <= 3 && has_knobs ==> (r matches Ok(k) && k.index_spec() == id),
{
    if id > 3 {
        return Err(ApiError::KnobNotFound);
    }
    if !has_knobs {
        return Err(ApiError::NotPlusDevice);
    }
    let k = KnobIndex::from(id);
    assert(k.index_spec() == id);
    Ok(k)
}

/// Checks a touchscreen request: the device must have the touchscreen.
pub fn check_touchscreen(has_touchscreen: bool) -> (r: Result<(), ApiError>)
    ensures
        r == (if has_touchscreen { Ok(()) } else { Err(ApiError::NotPlusDevice) }),
{
    if has_touchscreen {
        Ok(())
    } else {
        Err(ApiError::NotPlusDevice)
    }
}

/// The touch point whose button state index is `id`, if any.
pub open spec fn led_point_spec(id: u8) -> Option<NeoTouchPoint> {
    if id == 8 {
        Some(NeoTouchPoint::Left)
    } else if id == 9 {
        Some(NeoTouchPoint::Right)
    } else {
        None
    }
}

/// The touch point with an LED that button `id` is: buttons 8 and 9 of the Neo.
pub fn led_point(id: u8) -> (r: Option<NeoTouchPoint>)
    ensures
        r == led_point_spec(id),
        r matches Some(p) ==> 8 + p.position() == id,
{
    if id == 8 {
        Some(NeoTouchPoint::Left)
    } else if id == 9 {
        Some(NeoTouchPoint::Right)
    } else {
        None
    }
}

/// Checks an LED request: the button id first, then that the device is a
/// Neo, then that the button has an LED. On success, its touch point.
pub fn check_led(num_buttons: u8, has_leds: bool, id: u8) -> (r: Result<NeoTouchPoint, ApiError>)
    ensures
        id >= num_buttons ==> r == Err::<NeoTouchPoint, ApiError>(ApiError::ButtonNotFound),
        id < num_buttons && !has_leds ==> r == Err::<NeoTouchPoint, ApiError>(ApiError::NotNeoDevice),
        id < num_buttons && has_leds ==> r == (match led_point_spec(id) {
            Some(p) => Ok(p),
            None => Err(ApiError::NoLed(id)),
        }),
{
    if id >= num_buttons {
        return Err(ApiError::ButtonNotFound);
    }
    if !has_leds {
        return Err(ApiError::NotNeoDevice);
    }
    match led_point(id) {
        Some(p) => Ok(p),
        None => Err(ApiError::NoLed(id)),
    }
}

/// Sets the LED colour of button `id` of a Neo on request; a refused request
/// changes nothing.
pub fn set_led_request(neo: &mut NeoInputState, num_buttons: u8, id: u8, color: RgbColor) -> (r: Result<(), ApiError>)
    ensures
        r is Ok <==> (id < num_buttons && led_point_spec(id) is Some),
        id >= num_buttons ==> r == Err::<(), ApiError>(ApiError::ButtonNotFound),
        id < num_buttons && led_point_spec(id) is None ==> r == Err::<(), ApiError>(ApiError::NoLed(id)),
        r is Ok ==> final(neo)@ == old(neo)@.update(led_point_spec(id)->0.position(), color),
        r is Err ==> final(neo)@ == old(neo)@,
{
    match check_led(num_buttons, true, id) {
        Ok(point) => {
            neo.set_led_color(point, color);
            Ok(())
        },
        Err(e) => Err(e),
    }
}

/// Reads the LED colour of button `id` of a Neo on request.
pub fn get_led_request(neo: &NeoInputState, num_buttons: u8, id: u8) -> (r: Result<RgbColor, ApiError>)
    ensures
        id >= num_buttons ==> r == Err::<RgbColor, ApiError>(ApiError::ButtonNotFound),
        id < num_buttons ==> r == (match led_point_spec(id) {
            Some(p) => Ok(neo@[p.position()]),
            None => Err(ApiError::NoLed(id)),
        }),
{
    match check_led(num_buttons, true, id) {
        Ok(point) => Ok(neo.get_led_color(point)),
        Err(e) => Err(e),
    }
}

/// The LED colours of a Neo, left (button 8) then right (button 9).
pub fn led_colors(neo: &NeoInputState) -> (r: Vec<(u8, RgbColor)>)
    ensures
        r@ == seq![(8u8, neo@[0]), (9u8, neo@[1])],
{
    let v = vec![(8u8, neo.get_led_color(NeoTouchPoint::Left)), (9u8, neo.get_led_color(NeoTouchPoint::Right))];
    assert(v@ =~= seq![(8u8, neo@[0]), (9u8, neo@[1])]);
    v
}

} // verus!
