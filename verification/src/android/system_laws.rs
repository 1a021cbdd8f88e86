//! What the activity, its timers, surface and stored credentials come to.

use crate::android::credentials;
use crate::android::credentials::CredentialsError;
use crate::android::dispatcher;
use crate::android::dispatcher::TimerAfter;
use crate::android::display;
use crate::android::java;
use crate::android::platform;
use crate::android::platform::{Command, MainEvent, PlatformView};
use crate::android::surface;
use crate::android::surface::{InsetsReading, SurfaceState};
use crate::bytes;
use crate::float;
use crate::float::{scalar, Scalar};
use crate::geometry::{Edges, Size};
use vstd::prelude::*;
use vstd::utf8::*;

verus! {

/// What each event of the activity asks for, where a window is open. The oldest window is
/// the one that the surface belongs to.
pub proof fn law_event_commands(state: PlatformView, has_native_window: bool)
    requires
        state.windows.len() > 0,
    ensures
        ({
            let window = state.windows[0];
            let asked = |event: MainEvent| state.commands(event, has_native_window);
            &&& has_native_window ==> asked(MainEvent::InitWindow) == seq![
                Command::ReadFrameInterval,
                Command::AttachSurface(window),
                Command::PollInsets(window),
            ]
            &&& !has_native_window ==> asked(MainEvent::InitWindow) == Seq::<Command>::empty()
            &&& asked(MainEvent::WindowResized) == seq![
                Command::UpdateGeometry(window),
                Command::PollInsets(window),
            ]
            &&& asked(MainEvent::ContentRectChanged) == seq![
                Command::UpdateGeometry(window),
                Command::PollInsets(window),
            ]
            &&& asked(MainEvent::RedrawNeeded) == seq![
                Command::UpdateGeometry(window),
                Command::RequestFrame(window),
            ]
            &&& asked(MainEvent::GainedFocus) == seq![Command::SetActive(window, true)]
            &&& asked(MainEvent::LostFocus) == seq![Command::SetActive(window, false)]
            &&& asked(MainEvent::InputAvailable) == seq![Command::ReadInput(Some(window))]
        }),
{
}

/// What they ask for without a window.
pub proof fn law_event_commands_without_a_window(state: PlatformView, has_native_window: bool)
    requires
        state.windows.len() == 0,
    ensures
        ({
            let asked = |event: MainEvent| state.commands(event, has_native_window);
            &&& has_native_window ==> asked(MainEvent::InitWindow) == seq![
                Command::ReadFrameInterval,
            ]
            &&& !has_native_window ==> asked(MainEvent::InitWindow) == Seq::<Command>::empty()
            &&& asked(MainEvent::WindowResized) == Seq::<Command>::empty()
            &&& asked(MainEvent::ContentRectChanged) == Seq::<Command>::empty()
            &&& asked(MainEvent::RedrawNeeded) == Seq::<Command>::empty()
            &&& asked(MainEvent::GainedFocus) == Seq::<Command>::empty()
            &&& asked(MainEvent::LostFocus) == Seq::<Command>::empty()
            &&& asked(MainEvent::InputAvailable) == seq![Command::ReadInput(None)]
            &&& asked(MainEvent::TerminateWindow) == Seq::<Command>::empty()
            &&& asked(MainEvent::ConfigChanged) == Seq::<Command>::empty()
            &&& state.frame_commands() == Seq::<Command>::empty()
        }),
{
}

/// A surface that goes is taken from every window, and a change of the configuration
/// reaches every window, its geometry before its appearance. Coming back reopens, and the
/// rest asks for nothing.
pub proof fn law_events_for_all_windows(
    state: PlatformView,
    has_native_window: bool,
    index: int,
)
    requires
        0 <= index < state.windows.len(),
    ensures
        ({
            let gone = state.commands(MainEvent::TerminateWindow, has_native_window);
            let changed = state.commands(MainEvent::ConfigChanged, has_native_window);
            &&& gone.len() == state.windows.len()
            &&& gone[index] == Command::DetachSurface(state.windows[index])
            &&& changed.len() == 2 * state.windows.len()
            &&& changed[2 * index] == Command::UpdateGeometry(state.windows[index])
            &&& changed[2 * index + 1] == Command::UpdateAppearance(state.windows[index])
        }),
{
    lemma_refreshed(state.windows, index);
}

proof fn lemma_refreshed(windows: Seq<u64>, index: int)
    requires
        0 <= index < windows.len(),
    ensures
        platform::refresh_all(windows).len() == 2 * windows.len(),
        platform::refresh_all(windows)[2 * index] == Command::UpdateGeometry(windows[index]),
        platform::refresh_all(windows)[2 * index + 1] == Command::UpdateAppearance(windows[index]),
    decreases windows.len(),
{
    reveal_with_fuel(platform::refresh_all, 2);
    let rest = windows.drop_last();
    if rest.len() > 0 {
        lemma_refreshed(rest, if index < rest.len() {
            index
        } else {
            0
        });
    }
    if index < rest.len() {
        assert(rest[index] == windows[index]);
    } else {
        assert(windows.last() == windows[index]);
    }
}

/// The events that concern no window, and what events change.
pub proof fn law_activity_events(state: PlatformView, event: MainEvent, has_native_window: bool)
    ensures
        state.commands(MainEvent::Resume, has_native_window) == seq![Command::Reopen],
        state.commands(MainEvent::Pause, has_native_window) == Seq::<Command>::empty(),
        state.commands(MainEvent::Destroy, has_native_window) == Seq::<Command>::empty(),
        state.commands(MainEvent::Other, has_native_window) == Seq::<Command>::empty(),
        state.after(MainEvent::Pause) == (PlatformView { paused: true, ..state }),
        state.after(MainEvent::Resume) == (PlatformView { paused: false, ..state }),
        state.after(MainEvent::Destroy) == (PlatformView { quit_requested: true, ..state }),
        event != MainEvent::Pause && event != MainEvent::Resume && event != MainEvent::Destroy
            ==> state.after(event) == state,
{
}

/// A frame ticks the touch timers, asks for a frame and follows the keyboard; every fourth
/// one also polls the insets. Frames are counted on, and start over at the end.
pub proof fn law_frames(state: PlatformView)
    requires
        state.windows.len() > 0,
    ensures
        ({
            let window = state.windows[0];
            &&& state.frames < u32::MAX ==> state.next_frame_number() == state.frames + 1
            &&& state.frames == u32::MAX ==> state.next_frame_number() == 0
            &&& state.next_frame_number() % 4 == 0 ==> state.frame_commands() == seq![
                Command::TickTouchTimers(window),
                Command::PollInsets(window),
                Command::RequestFrame(window),
                Command::SyncKeyboard(window),
            ]
            &&& state.next_frame_number() % 4 != 0 ==> state.frame_commands() == seq![
                Command::TickTouchTimers(window),
                Command::RequestFrame(window),
                Command::SyncKeyboard(window),
            ]
        }),
{
}

/// A refresh rate counts where it is a finite number of at least 24 per second, and is 60
/// otherwise.
pub proof fn law_refresh_rates(rate: Scalar)
    ensures
        platform::credible_rate(None) == scalar(0x4270_0000),
        rate.is_finite() && 24 * scalar(0x3f80_0000).units() <= rate.units()
            ==> platform::credible_rate(Some(rate)) == rate,
        !rate.is_finite() || rate.units() < 24 * scalar(0x3f80_0000).units()
            ==> platform::credible_rate(Some(rate)) == scalar(0x4270_0000),
{
    float::laws::law_small_numbers();
}

/// A timer is placed after those that are due at the same time or before it, and before
/// those that are due later.
pub proof fn law_timer_place(timers: Seq<TimerAfter>, deadline: u64)
    requires
        dispatcher::in_order(timers),
    ensures
        0 <= dispatcher::place(timers, deadline) <= timers.len(),
        forall|i: int|
            0 <= i < dispatcher::place(timers, deadline) ==> (#[trigger] timers[i]).deadline
                <= deadline,
        forall|i: int|
            dispatcher::place(timers, deadline) <= i < timers.len() ==> deadline < (
            #[trigger] timers[i]).deadline,
    decreases timers.len(),
{
    if timers.len() > 0 && timers.last().deadline > deadline {
        let rest = timers.drop_last();
        assert(dispatcher::in_order(rest)) by {
            assert forall|i: int, j: int| 0 <= i <= j < rest.len() implies (
            #[trigger] rest[i]).deadline <= (#[trigger] rest[j]).deadline by {
                assert(rest[i] == timers[i] && rest[j] == timers[j]);
            }
        }
        law_timer_place(rest, deadline);
        let at = dispatcher::place(rest, deadline);
        assert forall|i: int| 0 <= i < at implies (#[trigger] timers[i]).deadline <= deadline by {
            assert(rest[i] == timers[i]);
        }
        assert forall|i: int| at <= i < timers.len() implies deadline < (
        #[trigger] timers[i]).deadline by {
            if i < rest.len() {
                assert(rest[i] == timers[i]);
            } else {
                assert(timers[i] == timers.last());
            }
        }
    } else if timers.len() > 0 {
        assert forall|i: int| 0 <= i < timers.len() implies (#[trigger] timers[i]).deadline
            <= deadline by {
            assert(timers[i].deadline <= timers[timers.len() - 1].deadline);
        }
    }
}

/// The timers that are due are the ones at the front whose time has come, and no others.
pub proof fn law_due_timers(timers: Seq<TimerAfter>, now: u64)
    ensures
        0 <= dispatcher::due_count(timers, now) <= timers.len(),
        forall|i: int|
            0 <= i < dispatcher::due_count(timers, now) ==> (#[trigger] timers[i]).deadline <= now,
        dispatcher::due_count(timers, now) < timers.len() ==> now
            < timers[dispatcher::due_count(timers, now)].deadline,
    decreases timers.len(),
{
    if timers.len() > 0 && timers[0].deadline <= now {
        let rest = timers.drop_first();
        law_due_timers(rest, now);
        let count = dispatcher::due_count(rest, now);
        assert forall|i: int| 0 <= i < count + 1 implies (#[trigger] timers[i]).deadline <= now by {
            if i > 0 {
                assert(rest[i - 1] == timers[i]);
            }
        }
    }
}

/// Credentials are written as the length of the user name in four bytes, the name and the
/// password; they read back where both are whole.
pub proof fn law_credentials_layout(username: Seq<char>, password: Seq<u8>)
    requires
        encode_utf8(username).len() < 0x1_0000_0000,
    ensures
        ({
            let name = encode_utf8(username);
            let written = credentials::credentials(username, password);
            &&& written.len() == 4 + name.len() + password.len()
            &&& bytes::big_endian(written.take(4)) == name.len()
            &&& written.subrange(4, 4 + name.len() as int) == name
            &&& written.skip(4 + name.len() as int) == password
        }),
{
    let name = encode_utf8(username);
    bytes::lemma_byte_powers();
    bytes::law_bytes_read_back(name.len(), 4);
    let written = credentials::credentials(username, password);
    assert(written.take(4) =~= bytes::low_bytes(name.len(), 4));
    assert(written.subrange(4, 4 + name.len() as int) =~= name);
    assert(written.skip(4 + name.len() as int) =~= password);
}

/// Stored bytes are corrupt where they end within the length or the name, are no text where
/// the name is none, and are the name and what follows it otherwise.
pub proof fn law_stored_credentials(length: Seq<u8>, name: Seq<u8>, password: Seq<u8>)
    ensures
        length.len() < 4 ==> credentials::stored(length) == Err::<(Seq<char>, Seq<u8>), _>(
            CredentialsError::Corrupt,
        ),
        length.len() == 4 && name.len() < bytes::big_endian(length) ==> credentials::stored(
            length + name,
        ) == Err::<(Seq<char>, Seq<u8>), _>(CredentialsError::Corrupt),
        length.len() == 4 && name.len() == bytes::big_endian(length) && !valid_utf8(name)
            ==> credentials::stored(length + name + password) == Err::<(Seq<char>, Seq<u8>), _>(
            CredentialsError::NotText,
        ),
        length.len() == 4 && name.len() == bytes::big_endian(length) && valid_utf8(name)
            ==> credentials::stored(length + name + password) == Ok::<_, CredentialsError>(
            (decode_utf8(name), password),
        ),
{
    if length.len() == 4 {
        assert((length + name).take(4) =~= length);
        let all = length + name + password;
        assert(all.take(4) =~= length);
        assert(all.subrange(4, 4 + name.len() as int) =~= name);
        assert(all.skip(4 + name.len() as int) =~= password);
    }
}

/// A ciphertext follows its initialisation vector, which follows its length in one byte.
pub proof fn law_ciphertext_layout(iv: Seq<u8>, ciphertext: Seq<u8>)
    requires
        iv.len() < 256,
    ensures
        ({
            let data = credentials::framed(iv, ciphertext);
            &&& data.len() == 1 + iv.len() + ciphertext.len()
            &&& data[0] == iv.len()
            &&& data.subrange(1, 1 + iv.len() as int) == iv
            &&& data.skip(1 + iv.len() as int) == ciphertext
        }),
{
    let data = credentials::framed(iv, ciphertext);
    assert(data.subrange(1, 1 + iv.len() as int) =~= iv);
    assert(data.skip(1 + iv.len() as int) =~= ciphertext);
}

/// Data without a byte is empty, and data that ends within the vector is truncated.
pub proof fn law_ciphertext_errors(length: u8, rest: Seq<u8>)
    ensures
        credentials::unframed(Seq::<u8>::empty()) == Err::<(Seq<u8>, Seq<u8>), _>(
            CredentialsError::Empty,
        ),
        rest.len() < length ==> credentials::unframed(seq![length] + rest) == Err::<
            (Seq<u8>, Seq<u8>),
            _,
        >(CredentialsError::Truncated),
        rest.len() >= length ==> credentials::unframed(seq![length] + rest) == Ok::<
            _,
            CredentialsError,
        >((rest.take(length as int), rest.skip(length as int))),
{
    let data = seq![length] + rest;
    assert(data[0] == length);
    if rest.len() >= length {
        assert(data.subrange(1, 1 + length) =~= rest.take(length as int));
        assert(data.skip(1 + length as int) =~= rest.skip(length as int));
    }
}

/// Sizes and edges are the same where each of their numbers is.
pub proof fn law_same_sizes(a: Size, b: Size, c: Edges, d: Edges)
    ensures
        surface::same_size(a, b) <==> !a.width.is_nan() && !b.width.is_nan() && a.width.units()
            == b.width.units() && !a.height.is_nan() && !b.height.is_nan() && a.height.units()
            == b.height.units(),
        surface::same_edges(c, d) <==> c.top.same_value(d.top) && c.right.same_value(d.right)
            && c.bottom.same_value(d.bottom) && c.left.same_value(d.left),
{
}

/// A window is as large as its surface once it has one, and its geometry has changed where
/// its size or its scale has.
pub proof fn law_surface_geometry(state: SurfaceState, surface_size: Size, scale_factor: Scalar)
    ensures
        state.has_native_window ==> state.measured(surface_size) == surface_size,
        !state.has_native_window ==> state.measured(surface_size) == state.size,
        state.has_native_window ==> (state.differs(surface_size, scale_factor) <==> !(
        surface_size.width.same_value(state.size.width) && surface_size.height.same_value(
            state.size.height,
        ) && scale_factor.same_value(state.scale_factor))),
{
}

/// Insets that cannot be read are left alone, and ones that are not there are none.
pub proof fn law_insets(edges: Edges)
    ensures
        SurfaceState::read_insets(InsetsReading::Edges(edges)) == Some(edges),
        SurfaceState::read_insets(InsetsReading::Nothing) == Some(
            Edges { top: scalar(0), right: scalar(0), bottom: scalar(0), left: scalar(0) },
        ),
        SurfaceState::read_insets(InsetsReading::Failed) is None,
{
}

/// The screen has a size where the configuration gives a width and a height above zero.
pub proof fn law_configured_sizes(width: Scalar, height: Scalar)
    ensures
        ({
            let known = !width.is_nan() && !height.is_nan() && 0 < width.units() && 0
                < height.units();
            &&& known ==> display::configured_size(Some(width), Some(height)) == Some(
                Size { width, height },
            )
            &&& !known ==> display::configured_size(Some(width), Some(height)) is None
            &&& display::configured_size(None, Some(height)) is None
            &&& display::configured_size(Some(width), None) is None
            &&& display::configured_size(None, None) is None
        }),
{
    float::laws::law_magnitudes_step_up(0);
}

/// The screen's identifier is the text "gpui-android-scr", byte by byte.
pub proof fn law_screen_identifier(index: int)
    requires
        0 <= index < 16,
    ensures
        display::screen_uuid().len() == 16,
        "gpui-android-scr"@.len() == 16,
        display::screen_uuid()[index] == "gpui-android-scr"@[index] as u8,
{
    reveal_strlit("gpui-android-scr");
}

/// What the device's key map gives is a character by its code, the top bit of a dead key
/// aside. A code of zero and one that is no character give none.
pub proof fn law_mapped_characters(c: char, code: i32)
    ensures
        c != '\0' ==> java::mapped_character(c as i32) == Some(c),
        c != '\0' ==> java::mapped_character((c as int - 0x8000_0000) as i32) == Some(c),
        java::mapped_character(0) is None,
        java::mapped_character(i32::MIN) is None,
        0xD800 <= code <= 0xDFFF || code > 0x10FFFF ==> java::mapped_character(code) is None,
{
}

/// Credentials are kept under a 256-bit AES key of the device's key store, in Galois counter
/// mode, for encrypting and decrypting.
pub proof fn law_credentials_key(parameters: java::KeyParameters)
    requires
        java::is_credentials_key(parameters),
    ensures
        parameters.alias@ == "gpui.credentials"@,
        parameters.algorithm@ == "AES"@,
        parameters.provider@ == "AndroidKeyStore"@,
        parameters.purposes == 3,
        parameters.block_mode@ == "GCM"@,
        parameters.padding@ == "NoPadding"@,
        parameters.bits == 256,
{
}

} // verus!
