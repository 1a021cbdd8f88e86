//! The classes that the backend declares to the Objective-C runtime: what they are made
//! from, what they keep, and what they answer.

use crate::ios::edit;
use crate::ios::edit::standard_edit_selectors;
use vstd::prelude::*;
use vstd::string::*;

verus! {

/// A class of the backend.
#[derive(Clone, Copy, Debug, PartialEq, Eq, Structural)]
pub enum BackendClass {
    Window,
    View,
    TextPosition,
    TextRange,
    ApplicationDelegate,
    SceneDelegate,
    DocumentPickerDelegate,
}

/// The function that answers a message.
#[derive(Clone, Copy, Debug, PartialEq, Eq, Structural)]
pub enum Handler {
    DeallocWindow,
    BecomeKeyWindow,
    ResignKeyWindow,
    WindowPressesBegan,
    WindowPressesEnded,
    CanPerformAction,
    ReservedKeyCommands,
    HandleReservedShortcut,
    DeallocView,
    LayoutSubviews,
    SafeAreaInsetsDidChange,
    TraitCollectionDidChange,
    DisplayLinkStep,
    TouchesBegan,
    TouchesMoved,
    TouchesEnded,
    TouchesCancelled,
    HandlePinch,
    HandleLongPress,
    HandlePointerScroll,
    HandleTwoFingerPan,
    RecognizeSimultaneously,
    HandleHover,
    PressesBegan,
    PressesEnded,
    Yes,
    KeyboardWillChangeFrame,
    ApplicationDidEnterBackground,
    ApplicationWillEnterForeground,
    InsertText,
    DeleteBackward,
    TextInRange,
    ReplaceRange,
    SelectedTextRange,
    SetSelectedTextRange,
    MarkedTextRange,
    MarkedTextStyle,
    SetMarkedTextStyle,
    SetMarkedText,
    UnmarkText,
    BeginningOfDocument,
    EndOfDocument,
    TextRangeFromPosition,
    PositionFromPosition,
    PositionFromPositionInDirection,
    ComparePosition,
    OffsetFromPosition,
    InputDelegate,
    SetInputDelegate,
    Tokenizer,
    PositionWithinRange,
    CharacterRangeByExtending,
    BaseWritingDirection,
    SetBaseWritingDirection,
    FirstRectForRange,
    CaretRectForPosition,
    SelectionRectsForRange,
    ClosestPositionToPoint,
    ClosestPositionToPointWithinRange,
    CharacterRangeAtPoint,
    TextInputView,
    AutocorrectionType,
    KeyboardAppearance,
    RangeStart,
    RangeEnd,
    RangeIsEmpty,
    DidFinishLaunching,
    WillTerminate,
    SceneConfiguration,
    AppOpenUrl,
    AppPerformShortcut,
    BuildMenu,
    ValidateCommand,
    DelegateCanPerformAction,
    HandleMenuItem,
    HandleOsAction,
    SceneWillConnect,
    SceneOpenUrls,
    ScenePerformShortcut,
    DidPickDocuments,
    PickerCancelled,
    PerformEditAction,
}

/// A message and the function that answers it.
#[derive(Clone, Copy, Debug)]
pub struct Method {
    pub selector: &'static str,
    pub handler: Handler,
}

/// Messages with the functions that answer them, as characters.
pub open spec fn methods_view(methods: Seq<Method>) -> Seq<(Seq<char>, Handler)> {
    methods.map_values(|method: Method| (method.selector@, method.handler))
}

fn answer(methods: &mut Vec<Method>, selector: &'static str, handler: Handler)
    ensures
        methods_view(final(methods)@) == methods_view(old(methods)@).push((selector@, handler)),
{
    methods.push(Method { selector, handler });
    assert(methods_view(methods@) =~= methods_view(old(methods)@).push((selector@, handler)));
}

/// What a window answers of its own.
pub open spec fn key_window_methods() -> Seq<(Seq<char>, Handler)> {
    seq![
        ("dealloc"@, Handler::DeallocWindow),
        ("becomeKeyWindow"@, Handler::BecomeKeyWindow),
        ("resignKeyWindow"@, Handler::ResignKeyWindow),
        ("pressesBegan:withEvent:"@, Handler::WindowPressesBegan),
        ("pressesEnded:withEvent:"@, Handler::WindowPressesEnded),
        ("pressesCancelled:withEvent:"@, Handler::WindowPressesEnded),
    ]
}

fn add_key_window(methods: &mut Vec<Method>)
    ensures
        methods_view(final(methods)@) == methods_view(old(methods)@) + key_window_methods(),
{
    answer(methods, "dealloc", Handler::DeallocWindow);
    answer(methods, "becomeKeyWindow", Handler::BecomeKeyWindow);
    answer(methods, "resignKeyWindow", Handler::ResignKeyWindow);
    answer(methods, "pressesBegan:withEvent:", Handler::WindowPressesBegan);
    answer(methods, "pressesEnded:withEvent:", Handler::WindowPressesEnded);
    answer(methods, "pressesCancelled:withEvent:", Handler::WindowPressesEnded);
    assert(methods_view(methods@) =~= methods_view(old(methods)@) + key_window_methods());
}

/// Whether an edit action can be performed.
pub open spec fn edit_query_methods() -> Seq<(Seq<char>, Handler)> {
    seq![
        ("canPerformAction:withSender:"@, Handler::CanPerformAction),
    ]
}

fn add_edit_query(methods: &mut Vec<Method>)
    ensures
        methods_view(final(methods)@) == methods_view(old(methods)@) + edit_query_methods(),
{
    answer(methods, "canPerformAction:withSender:", Handler::CanPerformAction);
    assert(methods_view(methods@) =~= methods_view(old(methods)@) + edit_query_methods());
}

/// The shortcuts that the system would keep for itself.
pub open spec fn shortcuts_methods() -> Seq<(Seq<char>, Handler)> {
    seq![
        ("keyCommands"@, Handler::ReservedKeyCommands),
        ("handleGPUIReservedShortcut:"@, Handler::HandleReservedShortcut),
    ]
}

fn add_shortcuts(methods: &mut Vec<Method>)
    ensures
        methods_view(final(methods)@) == methods_view(old(methods)@) + shortcuts_methods(),
{
    answer(methods, "keyCommands", Handler::ReservedKeyCommands);
    answer(methods, "handleGPUIReservedShortcut:", Handler::HandleReservedShortcut);
    assert(methods_view(methods@) =~= methods_view(old(methods)@) + shortcuts_methods());
}

/// What changes about a view.
pub open spec fn view_changes_methods() -> Seq<(Seq<char>, Handler)> {
    seq![
        ("dealloc"@, Handler::DeallocView),
        ("layoutSubviews"@, Handler::LayoutSubviews),
        ("safeAreaInsetsDidChange"@, Handler::SafeAreaInsetsDidChange),
        ("traitCollectionDidChange:"@, Handler::TraitCollectionDidChange),
        ("displayLinkStep:"@, Handler::DisplayLinkStep),
    ]
}

fn add_view_changes(methods: &mut Vec<Method>)
    ensures
        methods_view(final(methods)@) == methods_view(old(methods)@) + view_changes_methods(),
{
    answer(methods, "dealloc", Handler::DeallocView);
    answer(methods, "layoutSubviews", Handler::LayoutSubviews);
    answer(methods, "safeAreaInsetsDidChange", Handler::SafeAreaInsetsDidChange);
    answer(methods, "traitCollectionDidChange:", Handler::TraitCollectionDidChange);
    answer(methods, "displayLinkStep:", Handler::DisplayLinkStep);
    assert(methods_view(methods@) =~= methods_view(old(methods)@) + view_changes_methods());
}

/// Touches and gestures. The pinch and the pan with two fingers are made by the same fingers
/// and are recognised at the same time.
pub open spec fn touches_methods() -> Seq<(Seq<char>, Handler)> {
    seq![
        ("touchesBegan:withEvent:"@, Handler::TouchesBegan),
        ("touchesMoved:withEvent:"@, Handler::TouchesMoved),
        ("touchesEnded:withEvent:"@, Handler::TouchesEnded),
        ("touchesCancelled:withEvent:"@, Handler::TouchesCancelled),
        ("handlePinch:"@, Handler::HandlePinch),
        ("handleLongPress:"@, Handler::HandleLongPress),
        ("handlePointerScroll:"@, Handler::HandlePointerScroll),
        ("handleTwoFingerPan:"@, Handler::HandleTwoFingerPan),
        (
            "gestureRecognizer:shouldRecognizeSimultaneouslyWithGestureRecognizer:"@,
            Handler::RecognizeSimultaneously,
        ),
        ("handleHover:"@, Handler::HandleHover),
    ]
}

fn add_touches(methods: &mut Vec<Method>)
    ensures
        methods_view(final(methods)@) == methods_view(old(methods)@) + touches_methods(),
{
    answer(methods, "touchesBegan:withEvent:", Handler::TouchesBegan);
    answer(methods, "touchesMoved:withEvent:", Handler::TouchesMoved);
    answer(methods, "touchesEnded:withEvent:", Handler::TouchesEnded);
    answer(methods, "touchesCancelled:withEvent:", Handler::TouchesCancelled);
    answer(methods, "handlePinch:", Handler::HandlePinch);
    answer(methods, "handleLongPress:", Handler::HandleLongPress);
    answer(methods, "handlePointerScroll:", Handler::HandlePointerScroll);
    answer(methods, "handleTwoFingerPan:", Handler::HandleTwoFingerPan);
    answer(
        methods,
        "gestureRecognizer:shouldRecognizeSimultaneouslyWithGestureRecognizer:",
        Handler::RecognizeSimultaneously,
    );
    answer(methods, "handleHover:", Handler::HandleHover);
    assert(methods_view(methods@) =~= methods_view(old(methods)@) + touches_methods());
}

/// Keys of a hardware keyboard, of which a cancelled one counts as released.
pub open spec fn presses_methods() -> Seq<(Seq<char>, Handler)> {
    seq![
        ("pressesBegan:withEvent:"@, Handler::PressesBegan),
        ("pressesEnded:withEvent:"@, Handler::PressesEnded),
        ("pressesCancelled:withEvent:"@, Handler::PressesEnded),
        ("canBecomeFirstResponder"@, Handler::Yes),
    ]
}

fn add_presses(methods: &mut Vec<Method>)
    ensures
        methods_view(final(methods)@) == methods_view(old(methods)@) + presses_methods(),
{
    answer(methods, "pressesBegan:withEvent:", Handler::PressesBegan);
    answer(methods, "pressesEnded:withEvent:", Handler::PressesEnded);
    answer(methods, "pressesCancelled:withEvent:", Handler::PressesEnded);
    answer(methods, "canBecomeFirstResponder", Handler::Yes);
    assert(methods_view(methods@) =~= methods_view(old(methods)@) + presses_methods());
}

/// What the system announces.
pub open spec fn notifications_methods() -> Seq<(Seq<char>, Handler)> {
    seq![
        ("keyboardWillChangeFrame:"@, Handler::KeyboardWillChangeFrame),
        ("applicationDidEnterBackground:"@, Handler::ApplicationDidEnterBackground),
        ("applicationWillEnterForeground:"@, Handler::ApplicationWillEnterForeground),
    ]
}

fn add_notifications(methods: &mut Vec<Method>)
    ensures
        methods_view(final(methods)@) == methods_view(old(methods)@) + notifications_methods(),
{
    answer(methods, "keyboardWillChangeFrame:", Handler::KeyboardWillChangeFrame);
    answer(methods, "applicationDidEnterBackground:", Handler::ApplicationDidEnterBackground);
    answer(methods, "applicationWillEnterForeground:", Handler::ApplicationWillEnterForeground);
    assert(methods_view(methods@) =~= methods_view(old(methods)@) + notifications_methods());
}

/// Typing.
pub open spec fn key_input_methods() -> Seq<(Seq<char>, Handler)> {
    seq![
        ("hasText"@, Handler::Yes),
        ("insertText:"@, Handler::InsertText),
        ("deleteBackward"@, Handler::DeleteBackward),
    ]
}

fn add_key_input(methods: &mut Vec<Method>)
    ensures
        methods_view(final(methods)@) == methods_view(old(methods)@) + key_input_methods(),
{
    answer(methods, "hasText", Handler::Yes);
    answer(methods, "insertText:", Handler::InsertText);
    answer(methods, "deleteBackward", Handler::DeleteBackward);
    assert(methods_view(methods@) =~= methods_view(old(methods)@) + key_input_methods());
}

/// Reading and replacing text.
pub open spec fn text_access_methods() -> Seq<(Seq<char>, Handler)> {
    seq![
        ("textInRange:"@, Handler::TextInRange),
        ("replaceRange:withText:"@, Handler::ReplaceRange),
        ("selectedTextRange"@, Handler::SelectedTextRange),
        ("setSelectedTextRange:"@, Handler::SetSelectedTextRange),
        ("markedTextRange"@, Handler::MarkedTextRange),
        ("markedTextStyle"@, Handler::MarkedTextStyle),
        ("setMarkedTextStyle:"@, Handler::SetMarkedTextStyle),
        ("setMarkedText:selectedRange:"@, Handler::SetMarkedText),
        ("unmarkText"@, Handler::UnmarkText),
    ]
}

fn add_text_access(methods: &mut Vec<Method>)
    ensures
        methods_view(final(methods)@) == methods_view(old(methods)@) + text_access_methods(),
{
    answer(methods, "textInRange:", Handler::TextInRange);
    answer(methods, "replaceRange:withText:", Handler::ReplaceRange);
    answer(methods, "selectedTextRange", Handler::SelectedTextRange);
    answer(methods, "setSelectedTextRange:", Handler::SetSelectedTextRange);
    answer(methods, "markedTextRange", Handler::MarkedTextRange);
    answer(methods, "markedTextStyle", Handler::MarkedTextStyle);
    answer(methods, "setMarkedTextStyle:", Handler::SetMarkedTextStyle);
    answer(methods, "setMarkedText:selectedRange:", Handler::SetMarkedText);
    answer(methods, "unmarkText", Handler::UnmarkText);
    assert(methods_view(methods@) =~= methods_view(old(methods)@) + text_access_methods());
}

/// Positions in text.
pub open spec fn text_positions_methods() -> Seq<(Seq<char>, Handler)> {
    seq![
        ("beginningOfDocument"@, Handler::BeginningOfDocument),
        ("endOfDocument"@, Handler::EndOfDocument),
        ("textRangeFromPosition:toPosition:"@, Handler::TextRangeFromPosition),
        ("positionFromPosition:offset:"@, Handler::PositionFromPosition),
        ("positionFromPosition:inDirection:offset:"@, Handler::PositionFromPositionInDirection),
        ("comparePosition:toPosition:"@, Handler::ComparePosition),
        ("offsetFromPosition:toPosition:"@, Handler::OffsetFromPosition),
        ("inputDelegate"@, Handler::InputDelegate),
        ("setInputDelegate:"@, Handler::SetInputDelegate),
        ("tokenizer"@, Handler::Tokenizer),
    ]
}

fn add_text_positions(methods: &mut Vec<Method>)
    ensures
        methods_view(final(methods)@) == methods_view(old(methods)@) + text_positions_methods(),
{
    answer(methods, "beginningOfDocument", Handler::BeginningOfDocument);
    answer(methods, "endOfDocument", Handler::EndOfDocument);
    answer(methods, "textRangeFromPosition:toPosition:", Handler::TextRangeFromPosition);
    answer(methods, "positionFromPosition:offset:", Handler::PositionFromPosition);
    answer(
        methods,
        "positionFromPosition:inDirection:offset:",
        Handler::PositionFromPositionInDirection,
    );
    answer(methods, "comparePosition:toPosition:", Handler::ComparePosition);
    answer(methods, "offsetFromPosition:toPosition:", Handler::OffsetFromPosition);
    answer(methods, "inputDelegate", Handler::InputDelegate);
    answer(methods, "setInputDelegate:", Handler::SetInputDelegate);
    answer(methods, "tokenizer", Handler::Tokenizer);
    assert(methods_view(methods@) =~= methods_view(old(methods)@) + text_positions_methods());
}

/// Where text lies.
pub open spec fn text_layout_methods() -> Seq<(Seq<char>, Handler)> {
    seq![
        ("positionWithinRange:farthestInDirection:"@, Handler::PositionWithinRange),
        ("characterRangeByExtendingPosition:inDirection:"@, Handler::CharacterRangeByExtending),
        ("baseWritingDirectionForPosition:inDirection:"@, Handler::BaseWritingDirection),
        ("setBaseWritingDirection:forRange:"@, Handler::SetBaseWritingDirection),
        ("firstRectForRange:"@, Handler::FirstRectForRange),
        ("caretRectForPosition:"@, Handler::CaretRectForPosition),
        ("selectionRectsForRange:"@, Handler::SelectionRectsForRange),
        ("closestPositionToPoint:"@, Handler::ClosestPositionToPoint),
        ("closestPositionToPoint:withinRange:"@, Handler::ClosestPositionToPointWithinRange),
        ("characterRangeAtPoint:"@, Handler::CharacterRangeAtPoint),
        ("textInputView"@, Handler::TextInputView),
    ]
}

fn add_text_layout(methods: &mut Vec<Method>)
    ensures
        methods_view(final(methods)@) == methods_view(old(methods)@) + text_layout_methods(),
{
    answer(methods, "positionWithinRange:farthestInDirection:", Handler::PositionWithinRange);
    answer(
        methods,
        "characterRangeByExtendingPosition:inDirection:",
        Handler::CharacterRangeByExtending,
    );
    answer(methods, "baseWritingDirectionForPosition:inDirection:", Handler::BaseWritingDirection);
    answer(methods, "setBaseWritingDirection:forRange:", Handler::SetBaseWritingDirection);
    answer(methods, "firstRectForRange:", Handler::FirstRectForRange);
    answer(methods, "caretRectForPosition:", Handler::CaretRectForPosition);
    answer(methods, "selectionRectsForRange:", Handler::SelectionRectsForRange);
    answer(methods, "closestPositionToPoint:", Handler::ClosestPositionToPoint);
    answer(
        methods,
        "closestPositionToPoint:withinRange:",
        Handler::ClosestPositionToPointWithinRange,
    );
    answer(methods, "characterRangeAtPoint:", Handler::CharacterRangeAtPoint);
    answer(methods, "textInputView", Handler::TextInputView);
    assert(methods_view(methods@) =~= methods_view(old(methods)@) + text_layout_methods());
}

/// What keyboard a view wants.
pub open spec fn text_traits_methods() -> Seq<(Seq<char>, Handler)> {
    seq![
        ("autocorrectionType"@, Handler::AutocorrectionType),
        ("keyboardAppearance"@, Handler::KeyboardAppearance),
    ]
}

fn add_text_traits(methods: &mut Vec<Method>)
    ensures
        methods_view(final(methods)@) == methods_view(old(methods)@) + text_traits_methods(),
{
    answer(methods, "autocorrectionType", Handler::AutocorrectionType);
    answer(methods, "keyboardAppearance", Handler::KeyboardAppearance);
    assert(methods_view(methods@) =~= methods_view(old(methods)@) + text_traits_methods());
}

/// A range of text.
pub open spec fn text_range_methods() -> Seq<(Seq<char>, Handler)> {
    seq![
        ("start"@, Handler::RangeStart),
        ("end"@, Handler::RangeEnd),
        ("isEmpty"@, Handler::RangeIsEmpty),
    ]
}

fn add_text_range(methods: &mut Vec<Method>)
    ensures
        methods_view(final(methods)@) == methods_view(old(methods)@) + text_range_methods(),
{
    answer(methods, "start", Handler::RangeStart);
    answer(methods, "end", Handler::RangeEnd);
    answer(methods, "isEmpty", Handler::RangeIsEmpty);
    assert(methods_view(methods@) =~= methods_view(old(methods)@) + text_range_methods());
}

/// What the application answers.
pub open spec fn application_methods() -> Seq<(Seq<char>, Handler)> {
    seq![
        ("application:didFinishLaunchingWithOptions:"@, Handler::DidFinishLaunching),
        ("applicationWillTerminate:"@, Handler::WillTerminate),
        (
            "application:configurationForConnectingSceneSession:options:"@,
            Handler::SceneConfiguration,
        ),
        ("application:openURL:options:"@, Handler::AppOpenUrl),
        (
            "application:performActionForShortcutItem:completionHandler:"@,
            Handler::AppPerformShortcut,
        ),
        ("buildMenuWithBuilder:"@, Handler::BuildMenu),
        ("validateCommand:"@, Handler::ValidateCommand),
        ("canPerformAction:withSender:"@, Handler::DelegateCanPerformAction),
        ("handleGPUIMenuItem:"@, Handler::HandleMenuItem),
    ]
}

fn add_application(methods: &mut Vec<Method>)
    ensures
        methods_view(final(methods)@) == methods_view(old(methods)@) + application_methods(),
{
    answer(methods, "application:didFinishLaunchingWithOptions:", Handler::DidFinishLaunching);
    answer(methods, "applicationWillTerminate:", Handler::WillTerminate);
    answer(
        methods,
        "application:configurationForConnectingSceneSession:options:",
        Handler::SceneConfiguration,
    );
    answer(methods, "application:openURL:options:", Handler::AppOpenUrl);
    answer(
        methods,
        "application:performActionForShortcutItem:completionHandler:",
        Handler::AppPerformShortcut,
    );
    answer(methods, "buildMenuWithBuilder:", Handler::BuildMenu);
    answer(methods, "validateCommand:", Handler::ValidateCommand);
    answer(methods, "canPerformAction:withSender:", Handler::DelegateCanPerformAction);
    answer(methods, "handleGPUIMenuItem:", Handler::HandleMenuItem);
    assert(methods_view(methods@) =~= methods_view(old(methods)@) + application_methods());
}

/// The edit actions, as commands of the menu.
pub open spec fn application_edit_methods() -> Seq<(Seq<char>, Handler)> {
    seq![
        ("cut:"@, Handler::HandleOsAction),
        ("copy:"@, Handler::HandleOsAction),
        ("paste:"@, Handler::HandleOsAction),
        ("selectAll:"@, Handler::HandleOsAction),
        ("undo:"@, Handler::HandleOsAction),
        ("redo:"@, Handler::HandleOsAction),
    ]
}

fn add_application_edit(methods: &mut Vec<Method>)
    ensures
        methods_view(final(methods)@) == methods_view(old(methods)@) + application_edit_methods(),
{
    answer(methods, "cut:", Handler::HandleOsAction);
    answer(methods, "copy:", Handler::HandleOsAction);
    answer(methods, "paste:", Handler::HandleOsAction);
    answer(methods, "selectAll:", Handler::HandleOsAction);
    answer(methods, "undo:", Handler::HandleOsAction);
    answer(methods, "redo:", Handler::HandleOsAction);
    assert(methods_view(methods@) =~= methods_view(old(methods)@) + application_edit_methods());
}

/// What a scene answers.
pub open spec fn scene_methods() -> Seq<(Seq<char>, Handler)> {
    seq![
        ("scene:willConnectToSession:options:"@, Handler::SceneWillConnect),
        ("scene:openURLContexts:"@, Handler::SceneOpenUrls),
        (
            "windowScene:performActionForShortcutItem:completionHandler:"@,
            Handler::ScenePerformShortcut,
        ),
    ]
}

fn add_scene(methods: &mut Vec<Method>)
    ensures
        methods_view(final(methods)@) == methods_view(old(methods)@) + scene_methods(),
{
    answer(methods, "scene:willConnectToSession:options:", Handler::SceneWillConnect);
    answer(methods, "scene:openURLContexts:", Handler::SceneOpenUrls);
    answer(
        methods,
        "windowScene:performActionForShortcutItem:completionHandler:",
        Handler::ScenePerformShortcut,
    );
    assert(methods_view(methods@) =~= methods_view(old(methods)@) + scene_methods());
}

/// What a document picker reports.
pub open spec fn picker_methods() -> Seq<(Seq<char>, Handler)> {
    seq![
        ("documentPicker:didPickDocumentsAtURLs:"@, Handler::DidPickDocuments),
        ("documentPickerWasCancelled:"@, Handler::PickerCancelled),
    ]
}

fn add_picker(methods: &mut Vec<Method>)
    ensures
        methods_view(final(methods)@) == methods_view(old(methods)@) + picker_methods(),
{
    answer(methods, "documentPicker:didPickDocumentsAtURLs:", Handler::DidPickDocuments);
    answer(methods, "documentPickerWasCancelled:", Handler::PickerCancelled);
    assert(methods_view(methods@) =~= methods_view(old(methods)@) + picker_methods());
}

/// The edit actions, which the system finds on whatever has the keyboard.
pub open spec fn edit_methods() -> Seq<(Seq<char>, Handler)> {
    edit::selectors().map_values(|selector: Seq<char>| (selector, Handler::PerformEditAction))
}

fn add_edit(methods: &mut Vec<Method>)
    ensures
        methods_view(final(methods)@) == methods_view(old(methods)@) + edit_methods(),
{
    let selectors = standard_edit_selectors();
    let mut index: usize = 0;
    while index < selectors.len()
        invariant
            index <= selectors@.len(),
            edit::selectors() == selectors@.map_values(|selector: &'static str| selector@),
            methods_view(methods@) == methods_view(old(methods)@) + edit_methods().take(
                index as int,
            ),
        decreases selectors@.len() - index,
    {
        answer(methods, selectors[index], Handler::PerformEditAction);
        assert(edit_methods().take(index + 1) =~= edit_methods().take(index as int).push(
            (selectors@[index as int]@, Handler::PerformEditAction),
        ));
        index += 1;
    }
    assert(edit_methods().take(index as int) =~= edit_methods());
}

/// The name of a class, and of the one that it is made from.
pub open spec fn names_of(class: BackendClass) -> (Seq<char>, Seq<char>) {
    match class {
        BackendClass::Window => ("GPUIWindow"@, "UIWindow"@),
        BackendClass::View => ("GPUIView"@, "UIView"@),
        BackendClass::TextPosition => ("GPUITextPosition"@, "UITextPosition"@),
        BackendClass::TextRange => ("GPUITextRange"@, "UITextRange"@),
        BackendClass::ApplicationDelegate => ("GPUIApplicationDelegate"@, "UIResponder"@),
        BackendClass::SceneDelegate => ("GPUISceneDelegate"@, "NSObject"@),
        BackendClass::DocumentPickerDelegate => ("GPUIDocumentPickerDelegate"@, "NSObject"@),
    }
}

pub fn class_names(class: BackendClass) -> (names: (&'static str, &'static str))
    ensures
        (names.0@, names.1@) == names_of(class),
{
    match class {
        BackendClass::Window => ("GPUIWindow", "UIWindow"),
        BackendClass::View => ("GPUIView", "UIView"),
        BackendClass::TextPosition => ("GPUITextPosition", "UITextPosition"),
        BackendClass::TextRange => ("GPUITextRange", "UITextRange"),
        BackendClass::ApplicationDelegate => ("GPUIApplicationDelegate", "UIResponder"),
        BackendClass::SceneDelegate => ("GPUISceneDelegate", "NSObject"),
        BackendClass::DocumentPickerDelegate => ("GPUIDocumentPickerDelegate", "NSObject"),
    }
}

/// What an instance of a class keeps.
pub open spec fn fields_of(class: BackendClass) -> Seq<Seq<char>> {
    match class {
        BackendClass::Window => seq!["windowState"@],
        BackendClass::View => seq!["windowState"@, "gpuiInputDelegate"@, "gpuiTokenizer"@],
        BackendClass::TextPosition => seq!["gpuiOffset"@],
        BackendClass::TextRange => seq!["gpuiStart"@, "gpuiEnd"@],
        BackendClass::ApplicationDelegate => seq![],
        BackendClass::SceneDelegate => seq![],
        BackendClass::DocumentPickerDelegate => seq!["gpuiSender"@],
    }
}

/// The protocols that a class declares: some delegates are refused without, whatever they
/// answer.
pub open spec fn protocols_of(class: BackendClass) -> Seq<Seq<char>> {
    match class {
        BackendClass::Window => seq![],
        BackendClass::View => seq!["UITextInput"@, "UIGestureRecognizerDelegate"@],
        BackendClass::TextPosition => seq![],
        BackendClass::TextRange => seq![],
        BackendClass::ApplicationDelegate => seq!["UIApplicationDelegate"@],
        BackendClass::SceneDelegate => seq!["UIWindowSceneDelegate"@],
        BackendClass::DocumentPickerDelegate => seq!["UIDocumentPickerDelegate"@],
    }
}

/// What a class answers.
pub open spec fn methods_of(class: BackendClass) -> Seq<(Seq<char>, Handler)> {
    match class {
        BackendClass::Window => key_window_methods() + edit_query_methods() + edit_methods()
            + shortcuts_methods(),
        BackendClass::View => view_changes_methods() + touches_methods() + presses_methods()
            + notifications_methods() + edit_query_methods() + edit_methods() + shortcuts_methods()
            + key_input_methods() + text_access_methods() + text_positions_methods()
            + text_layout_methods() + text_traits_methods(),
        BackendClass::TextPosition => seq![],
        BackendClass::TextRange => text_range_methods(),
        BackendClass::ApplicationDelegate => application_methods() + application_edit_methods(),
        BackendClass::SceneDelegate => scene_methods(),
        BackendClass::DocumentPickerDelegate => picker_methods(),
    }
}

pub fn class_fields(class: BackendClass) -> (names: Vec<&'static str>)
    ensures
        names@.map_values(|name: &'static str| name@) == fields_of(class),
{
    let mut names: Vec<&'static str> = Vec::new();
    match class {
        BackendClass::Window => {
            names.push("windowState");
        },
        BackendClass::View => {
            names.push("windowState");
            names.push("gpuiInputDelegate");
            names.push("gpuiTokenizer");
        },
        BackendClass::TextPosition => {
            names.push("gpuiOffset");
        },
        BackendClass::TextRange => {
            names.push("gpuiStart");
            names.push("gpuiEnd");
        },
        BackendClass::DocumentPickerDelegate => {
            names.push("gpuiSender");
        },
        _ => {},
    }
    assert(names@.map_values(|name: &'static str| name@) =~= fields_of(class));
    names
}

pub fn class_protocols(class: BackendClass) -> (names: Vec<&'static str>)
    ensures
        names@.map_values(|name: &'static str| name@) == protocols_of(class),
{
    let mut names: Vec<&'static str> = Vec::new();
    match class {
        BackendClass::View => {
            names.push("UITextInput");
            names.push("UIGestureRecognizerDelegate");
        },
        BackendClass::ApplicationDelegate => {
            names.push("UIApplicationDelegate");
        },
        BackendClass::SceneDelegate => {
            names.push("UIWindowSceneDelegate");
        },
        BackendClass::DocumentPickerDelegate => {
            names.push("UIDocumentPickerDelegate");
        },
        _ => {},
    }
    assert(names@.map_values(|name: &'static str| name@) =~= protocols_of(class));
    names
}

pub fn class_methods(class: BackendClass) -> (methods: Vec<Method>)
    ensures
        methods_view(methods@) == methods_of(class),
{
    let mut methods: Vec<Method> = Vec::new();
    assert(methods_view(methods@) =~= seq![]);
    match class {
        BackendClass::Window => {
            add_key_window(&mut methods);
            add_edit_query(&mut methods);
            add_edit(&mut methods);
            add_shortcuts(&mut methods);
        },
        BackendClass::View => {
            add_view_changes(&mut methods);
            add_touches(&mut methods);
            add_presses(&mut methods);
            add_notifications(&mut methods);
            add_edit_query(&mut methods);
            add_edit(&mut methods);
            add_shortcuts(&mut methods);
            add_key_input(&mut methods);
            add_text_access(&mut methods);
            add_text_positions(&mut methods);
            add_text_layout(&mut methods);
            add_text_traits(&mut methods);
        },
        BackendClass::TextPosition => {
        },
        BackendClass::TextRange => {
            add_text_range(&mut methods);
        },
        BackendClass::ApplicationDelegate => {
            add_application(&mut methods);
            add_application_edit(&mut methods);
        },
        BackendClass::SceneDelegate => {
            add_scene(&mut methods);
        },
        BackendClass::DocumentPickerDelegate => {
            add_picker(&mut methods);
        },
    }
    assert(methods_view(methods@) =~= methods_of(class));
    methods
}

/// Every edit action reaches the application from a window and from a view alike.
pub proof fn law_edit_actions_are_answered(i: int)
    requires
        0 <= i < edit::selectors().len(),
    ensures
        methods_of(BackendClass::Window).contains(
            (edit::selectors()[i], Handler::PerformEditAction),
        ),
        methods_of(BackendClass::View).contains(
            (edit::selectors()[i], Handler::PerformEditAction),
        ),
{
    let method = (edit::selectors()[i], Handler::PerformEditAction);
    assert(edit_methods()[i] == method);
    let window = methods_of(BackendClass::Window);
    assert(window[key_window_methods().len() + edit_query_methods().len() + i] == method);
    let view = methods_of(BackendClass::View);
    let before = view_changes_methods() + touches_methods() + presses_methods()
        + notifications_methods() + edit_query_methods();
    assert(view[before.len() + i] == method);
}

} // verus!
