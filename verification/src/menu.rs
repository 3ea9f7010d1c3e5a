use vstd::prelude::*;

verus! {

/// The screen the game is on: the main menu or the board.
#[derive(Clone, Copy, Debug, PartialEq, Eq, Structural)]
pub enum GameState {
    Menu,
    Game,
}

/// The two buttons of the main menu.
#[derive(Clone, Copy, Debug, PartialEq, Eq, Structural)]
pub enum ButtonKind {
    Play,
    Quit,
}

/// How the pointer meets a button.
#[derive(Clone, Copy, Debug, PartialEq, Eq, Structural)]
pub enum ButtonInteraction {
    Pressed,
    Hovered,
    Idle,
}

/// The background a button shows: brightest when pressed, a middle grey
/// when hovered, darkest otherwise.
#[derive(Clone, Copy, Debug, PartialEq, Eq, Structural)]
pub enum ButtonShade {
    Pressed,
    Hovered,
    Idle,
}

/// What a pressed button asks for: another screen, or leaving the program.
#[derive(Clone, Copy, Debug, PartialEq, Eq, Structural)]
pub enum MenuRequest {
    Switch(GameState),
    Exit,
}

/// How a button answers a change of its interaction.
#[derive(Clone, Copy, Debug, PartialEq, Eq, Structural)]
pub struct ButtonResponse {
    pub request: Option<MenuRequest>,
    pub shade: ButtonShade,
}

/// A pressed Play button switches to the board and a pressed Quit button
/// exits; the background follows the interaction; buttons that are only
/// hovered or left alone ask for nothing.
pub open spec fn spec_button_response(interaction: ButtonInteraction, kind: ButtonKind) -> ButtonResponse {
    match interaction {
        ButtonInteraction::Pressed => ButtonResponse {
            request: Some(
                match kind {
                    ButtonKind::Play => MenuRequest::Switch(GameState::Game),
                    ButtonKind::Quit => MenuRequest::Exit,
                },
            ),
            shade: ButtonShade::Pressed,
        },
        ButtonInteraction::Hovered => ButtonResponse { request: None, shade: ButtonShade::Hovered },
        ButtonInteraction::Idle => ButtonResponse { request: None, shade: ButtonShade::Idle },
    }
}

/// The answer of a button of `kind` to `interaction`.
pub fn button_response(interaction: ButtonInteraction, kind: ButtonKind) -> (r: ButtonResponse)
    ensures
        r == spec_button_response(interaction, kind),
{
    match interaction {
        ButtonInteraction::Pressed => {
            let request = match kind {
                ButtonKind::Play => MenuRequest::Switch(GameState::Game),
                ButtonKind::Quit => MenuRequest::Exit,
            };
            ButtonResponse { request: Some(request), shade: ButtonShade::Pressed }
        },
        ButtonInteraction::Hovered => ButtonResponse { request: None, shade: ButtonShade::Hovered },
        ButtonInteraction::Idle => ButtonResponse { request: None, shade: ButtonShade::Idle },
    }
}

/// Only a press asks for anything, and each button asks for its own thing:
/// Play never exits and Quit never switches screens.
pub proof fn lemma_only_presses_request(interaction: ButtonInteraction, kind: ButtonKind)
    ensures
        spec_button_response(interaction, kind).request is Some <==> interaction
            == ButtonInteraction::Pressed,
        kind == ButtonKind::Play ==> spec_button_response(interaction, kind).request
            != Some(MenuRequest::Exit),
        kind == ButtonKind::Quit ==> !(spec_button_response(interaction, kind).request matches Some(
            MenuRequest::Switch(_),
        )),
{
}

/// A pressed Play button switches to the board and a pressed Quit button
/// exits; the shade of every button follows its interaction: pressed,
/// hovered or idle.
pub proof fn law_buttons(interaction: ButtonInteraction, kind: ButtonKind)
    ensures
        spec_button_response(ButtonInteraction::Pressed, ButtonKind::Play).request == Some(
            MenuRequest::Switch(GameState::Game),
        ),
        spec_button_response(ButtonInteraction::Pressed, ButtonKind::Quit).request == Some(MenuRequest::Exit),
        interaction == ButtonInteraction::Pressed ==> spec_button_response(interaction, kind).shade
            == ButtonShade::Pressed,
        interaction == ButtonInteraction::Hovered ==> spec_button_response(interaction, kind).shade
            == ButtonShade::Hovered,
        interaction == ButtonInteraction::Idle ==> spec_button_response(interaction, kind).shade
            == ButtonShade::Idle,
        interaction != ButtonInteraction::Pressed ==> spec_button_response(interaction, kind).request is None,
{
}

} // verus!
