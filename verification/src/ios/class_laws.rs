//! What the classes of the backend answer, selector by selector.

use crate::ios::classes;
use crate::ios::classes::{BackendClass, Handler};
use vstd::prelude::*;

verus! {

/// The classes by name, each with the class it extends.
pub proof fn law_class_names()
    ensures
        classes::names_of(BackendClass::Window) == ("GPUIWindow"@, "UIWindow"@),
        classes::names_of(BackendClass::View) == ("GPUIView"@, "UIView"@),
        classes::names_of(BackendClass::TextPosition) == ("GPUITextPosition"@, "UITextPosition"@),
        classes::names_of(BackendClass::TextRange) == ("GPUITextRange"@, "UITextRange"@),
        classes::names_of(BackendClass::ApplicationDelegate) == (
            "GPUIApplicationDelegate"@,
            "UIResponder"@,
        ),
        classes::names_of(BackendClass::SceneDelegate) == ("GPUISceneDelegate"@, "NSObject"@),
        classes::names_of(BackendClass::DocumentPickerDelegate) == (
            "GPUIDocumentPickerDelegate"@,
            "NSObject"@,
        ),
{
}

/// The fields that the objects of each class carry.
pub proof fn law_class_fields()
    ensures
        classes::fields_of(BackendClass::Window) == seq!["windowState"@],
        classes::fields_of(BackendClass::View) == seq![
            "windowState"@,
            "gpuiInputDelegate"@,
            "gpuiTokenizer"@,
        ],
        classes::fields_of(BackendClass::TextPosition) == seq!["gpuiOffset"@],
        classes::fields_of(BackendClass::TextRange) == seq!["gpuiStart"@, "gpuiEnd"@],
        classes::fields_of(BackendClass::ApplicationDelegate).len() == 0,
        classes::fields_of(BackendClass::SceneDelegate).len() == 0,
        classes::fields_of(BackendClass::DocumentPickerDelegate) == seq!["gpuiSender"@],
{
}

/// The protocols that each class conforms to.
pub proof fn law_class_protocols()
    ensures
        classes::protocols_of(BackendClass::Window).len() == 0,
        classes::protocols_of(BackendClass::View) == seq![
            "UITextInput"@,
            "UIGestureRecognizerDelegate"@,
        ],
        classes::protocols_of(BackendClass::TextPosition).len() == 0,
        classes::protocols_of(BackendClass::TextRange).len() == 0,
        classes::protocols_of(BackendClass::ApplicationDelegate) == seq![
            "UIApplicationDelegate"@,
        ],
        classes::protocols_of(BackendClass::SceneDelegate) == seq!["UIWindowSceneDelegate"@],
        classes::protocols_of(BackendClass::DocumentPickerDelegate) == seq![
            "UIDocumentPickerDelegate"@,
        ],
{
}

/// A window answers for its keyboard focus, its presses, the edit actions and the reserved
/// shortcuts.
pub proof fn law_window_methods()
    ensures
        classes::methods_of(BackendClass::Window) == seq![
            ("dealloc"@, Handler::DeallocWindow),
            ("becomeKeyWindow"@, Handler::BecomeKeyWindow),
            ("resignKeyWindow"@, Handler::ResignKeyWindow),
            ("pressesBegan:withEvent:"@, Handler::WindowPressesBegan),
            ("pressesEnded:withEvent:"@, Handler::WindowPressesEnded),
            ("pressesCancelled:withEvent:"@, Handler::WindowPressesEnded),
            ("canPerformAction:withSender:"@, Handler::CanPerformAction),
            ("cut:"@, Handler::PerformEditAction),
            ("copy:"@, Handler::PerformEditAction),
            ("paste:"@, Handler::PerformEditAction),
            ("selectAll:"@, Handler::PerformEditAction),
            ("undo:"@, Handler::PerformEditAction),
            ("redo:"@, Handler::PerformEditAction),
            ("keyCommands"@, Handler::ReservedKeyCommands),
            ("handleGPUIReservedShortcut:"@, Handler::HandleReservedShortcut),
        ],
{
    let edits = classes::edit_methods();
    assert(edits.len() == 6);
    assert(edits[0] == ("cut:"@, Handler::PerformEditAction));
    assert(edits[1] == ("copy:"@, Handler::PerformEditAction));
    assert(edits[2] == ("paste:"@, Handler::PerformEditAction));
    assert(edits[3] == ("selectAll:"@, Handler::PerformEditAction));
    assert(edits[4] == ("undo:"@, Handler::PerformEditAction));
    assert(edits[5] == ("redo:"@, Handler::PerformEditAction));
}

/// A view answers for its layout, touches, presses, notifications, the edit actions, the
/// reserved shortcuts and the text input of the system keyboard.
pub proof fn law_view_methods()
    ensures
        classes::methods_of(BackendClass::View) == seq![
            ("dealloc"@, Handler::DeallocView),
            ("layoutSubviews"@, Handler::LayoutSubviews),
            ("safeAreaInsetsDidChange"@, Handler::SafeAreaInsetsDidChange),
            ("traitCollectionDidChange:"@, Handler::TraitCollectionDidChange),
            ("displayLinkStep:"@, Handler::DisplayLinkStep),
            ("touchesBegan:withEvent:"@, Handler::TouchesBegan),
            ("touchesMoved:withEvent:"@, Handler::TouchesMoved),
            ("touchesEnded:withEvent:"@, Handler::TouchesEnded),
            ("touchesCancelled:withEvent:"@, Handler::TouchesCancelled),
            ("handlePinch:"@, Handler::HandlePinch),
            ("handleLongPress:"@, Handler::HandleLongPress),
            ("handlePointerScroll:"@, Handler::HandlePointerScroll),
            ("handleTwoFingerPan:"@, Handler::HandleTwoFingerPan),
            ("gestureRecognizer:shouldRecognizeSimultaneouslyWithGestureRecognizer:"@, Handler::RecognizeSimultaneously),
            ("handleHover:"@, Handler::HandleHover),
            ("pressesBegan:withEvent:"@, Handler::PressesBegan),
            ("pressesEnded:withEvent:"@, Handler::PressesEnded),
            ("pressesCancelled:withEvent:"@, Handler::PressesEnded),
            ("canBecomeFirstResponder"@, Handler::Yes),
            ("keyboardWillChangeFrame:"@, Handler::KeyboardWillChangeFrame),
            ("applicationDidEnterBackground:"@, Handler::ApplicationDidEnterBackground),
            ("applicationWillEnterForeground:"@, Handler::ApplicationWillEnterForeground),
            ("canPerformAction:withSender:"@, Handler::CanPerformAction),
            ("cut:"@, Handler::PerformEditAction),
            ("copy:"@, Handler::PerformEditAction),
            ("paste:"@, Handler::PerformEditAction),
            ("selectAll:"@, Handler::PerformEditAction),
            ("undo:"@, Handler::PerformEditAction),
            ("redo:"@, Handler::PerformEditAction),
            ("keyCommands"@, Handler::ReservedKeyCommands),
            ("handleGPUIReservedShortcut:"@, Handler::HandleReservedShortcut),
            ("hasText"@, Handler::Yes),
            ("insertText:"@, Handler::InsertText),
            ("deleteBackward"@, Handler::DeleteBackward),
            ("textInRange:"@, Handler::TextInRange),
            ("replaceRange:withText:"@, Handler::ReplaceRange),
            ("selectedTextRange"@, Handler::SelectedTextRange),
            ("setSelectedTextRange:"@, Handler::SetSelectedTextRange),
            ("markedTextRange"@, Handler::MarkedTextRange),
            ("markedTextStyle"@, Handler::MarkedTextStyle),
            ("setMarkedTextStyle:"@, Handler::SetMarkedTextStyle),
            ("setMarkedText:selectedRange:"@, Handler::SetMarkedText),
            ("unmarkText"@, Handler::UnmarkText),
            ("beginningOfDocument"@, Handler::BeginningOfDocument),
            ("endOfDocument"@, Handler::EndOfDocument),
            ("textRangeFromPosition:toPosition:"@, Handler::TextRangeFromPosition),
            ("positionFromPosition:offset:"@, Handler::PositionFromPosition),
            ("positionFromPosition:inDirection:offset:"@, Handler::PositionFromPositionInDirection),
            ("comparePosition:toPosition:"@, Handler::ComparePosition),
            ("offsetFromPosition:toPosition:"@, Handler::OffsetFromPosition),
            ("inputDelegate"@, Handler::InputDelegate),
            ("setInputDelegate:"@, Handler::SetInputDelegate),
            ("tokenizer"@, Handler::Tokenizer),
            ("positionWithinRange:farthestInDirection:"@, Handler::PositionWithinRange),
            ("characterRangeByExtendingPosition:inDirection:"@, Handler::CharacterRangeByExtending),
            ("baseWritingDirectionForPosition:inDirection:"@, Handler::BaseWritingDirection),
            ("setBaseWritingDirection:forRange:"@, Handler::SetBaseWritingDirection),
            ("firstRectForRange:"@, Handler::FirstRectForRange),
            ("caretRectForPosition:"@, Handler::CaretRectForPosition),
            ("selectionRectsForRange:"@, Handler::SelectionRectsForRange),
            ("closestPositionToPoint:"@, Handler::ClosestPositionToPoint),
            ("closestPositionToPoint:withinRange:"@, Handler::ClosestPositionToPointWithinRange),
            ("characterRangeAtPoint:"@, Handler::CharacterRangeAtPoint),
            ("textInputView"@, Handler::TextInputView),
            ("autocorrectionType"@, Handler::AutocorrectionType),
            ("keyboardAppearance"@, Handler::KeyboardAppearance),
        ],
{
    let edits = classes::edit_methods();
    assert(edits.len() == 6);
    assert(edits[0] == ("cut:"@, Handler::PerformEditAction));
    assert(edits[1] == ("copy:"@, Handler::PerformEditAction));
    assert(edits[2] == ("paste:"@, Handler::PerformEditAction));
    assert(edits[3] == ("selectAll:"@, Handler::PerformEditAction));
    assert(edits[4] == ("undo:"@, Handler::PerformEditAction));
    assert(edits[5] == ("redo:"@, Handler::PerformEditAction));
}

/// A text position answers nothing of its own.
pub proof fn law_text_position_methods()
    ensures
        classes::methods_of(BackendClass::TextPosition).len() == 0,
{
}

/// A text range answers for its two ends.
pub proof fn law_text_range_methods()
    ensures
        classes::methods_of(BackendClass::TextRange) == seq![
            ("start"@, Handler::RangeStart),
            ("end"@, Handler::RangeEnd),
            ("isEmpty"@, Handler::RangeIsEmpty),
        ],
{
}

/// The application delegate answers for the life of the application, its URLs, quick
/// actions and menus, and the edit actions.
pub proof fn law_application_delegate_methods()
    ensures
        classes::methods_of(BackendClass::ApplicationDelegate) == seq![
            ("application:didFinishLaunchingWithOptions:"@, Handler::DidFinishLaunching),
            ("applicationWillTerminate:"@, Handler::WillTerminate),
            ("application:configurationForConnectingSceneSession:options:"@, Handler::SceneConfiguration),
            ("application:openURL:options:"@, Handler::AppOpenUrl),
            ("application:performActionForShortcutItem:completionHandler:"@, Handler::AppPerformShortcut),
            ("buildMenuWithBuilder:"@, Handler::BuildMenu),
            ("validateCommand:"@, Handler::ValidateCommand),
            ("canPerformAction:withSender:"@, Handler::DelegateCanPerformAction),
            ("handleGPUIMenuItem:"@, Handler::HandleMenuItem),
            ("cut:"@, Handler::HandleOsAction),
            ("copy:"@, Handler::HandleOsAction),
            ("paste:"@, Handler::HandleOsAction),
            ("selectAll:"@, Handler::HandleOsAction),
            ("undo:"@, Handler::HandleOsAction),
            ("redo:"@, Handler::HandleOsAction),
        ],
{
}

/// A scene delegate answers for the life of its scene, its URLs and quick actions.
pub proof fn law_scene_delegate_methods()
    ensures
        classes::methods_of(BackendClass::SceneDelegate) == seq![
            ("scene:willConnectToSession:options:"@, Handler::SceneWillConnect),
            ("scene:openURLContexts:"@, Handler::SceneOpenUrls),
            ("windowScene:performActionForShortcutItem:completionHandler:"@, Handler::ScenePerformShortcut),
        ],
{
}

/// A document picker delegate answers with what was picked, or that nothing was.
pub proof fn law_document_picker_delegate_methods()
    ensures
        classes::methods_of(BackendClass::DocumentPickerDelegate) == seq![
            ("documentPicker:didPickDocumentsAtURLs:"@, Handler::DidPickDocuments),
            ("documentPickerWasCancelled:"@, Handler::PickerCancelled),
        ],
{
}

} // verus!
