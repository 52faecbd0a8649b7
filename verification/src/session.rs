//! The session of the browser as a state machine: what each command and each
//! completed fetch changes, and what has to be done next.

use crate::comic::{Comic, ComicView};
use crate::command::{CommandToApp, OpenInBrowser};
use crate::failure::Failure;
use crate::navigation::SwitchToComic;
use crate::state::{State, StateView};
use crate::text::{decimal, push_decimal};
use vstd::prelude::*;

verus! {

/// The time that a message stays on screen, in seconds.
pub const MESSAGE_DURATION: u64 = 2;

/// The time after which the session looks for events again when none came, in
/// milliseconds.
pub const WAIT_DURATION: u64 = 100;

/// What the terminal reports.
#[derive(Debug, Clone, Copy, PartialEq, Eq)]
pub enum TerminalEvent {
    /// A key was pressed; with it comes the command that the key is bound to, if
    /// it is bound.
    Key(Option<CommandToApp>),
    /// The size of the terminal changed.
    Resize,
    /// Anything else.
    Other,
}

impl TerminalEvent {
    /// The command that an event of the terminal stands for: that of the key, and
    /// for a new size the command to handle it.
    pub open spec fn command(self) -> Option<CommandToApp> {
        match self {
            TerminalEvent::Key(command) => command,
            TerminalEvent::Resize => Some(CommandToApp::HandleResize),
            TerminalEvent::Other => None,
        }
    }
}

/// What the screen shows besides the comic when it is drawn again.
#[derive(Debug)]
pub enum RenderOption {
    /// The screen as it is.
    Nothing,
    /// The text of a failure, in place of the message.
    ShowError(String),
    /// A message.
    ShowMessage(String),
    /// The artwork of the current comic.
    NewImage(image::DynamicImage),
    /// No message any more.
    DeleteMessage,
}

/// What a [`RenderOption`] holds, as plain values.
pub enum RenderOptionView {
    Nothing,
    ShowError(Seq<char>),
    ShowMessage(Seq<char>),
    NewImage(image::DynamicImage),
    DeleteMessage,
}

impl View for RenderOption {
    type V = RenderOptionView;

    open spec fn view(&self) -> RenderOptionView {
        match self {
            RenderOption::Nothing => RenderOptionView::Nothing,
            RenderOption::ShowError(text) => RenderOptionView::ShowError(text@),
            RenderOption::ShowMessage(text) => RenderOptionView::ShowMessage(text@),
            RenderOption::NewImage(image) => RenderOptionView::NewImage(*image),
            RenderOption::DeleteMessage => RenderOptionView::DeleteMessage,
        }
    }
}

/// The line that the screen shows beside the title.
#[derive(Debug, Clone, PartialEq, Eq)]
pub enum Notice {
    /// A message.
    Message(String),
    /// The text of a failure.
    Error(String),
}

/// What a [`Notice`] holds, as plain values.
pub enum NoticeView {
    Message(Seq<char>),
    Error(Seq<char>),
}

impl View for Notice {
    type V = NoticeView;

    open spec fn view(&self) -> NoticeView {
        match self {
            Notice::Message(text) => NoticeView::Message(text@),
            Notice::Error(text) => NoticeView::Error(text@),
        }
    }
}

/// The view of the notice, if there is one.
pub open spec fn notice_view(notice: Option<Notice>) -> Option<NoticeView> {
    match notice {
        Some(notice) => Some(notice@),
        None => None,
    }
}

impl RenderOptionView {
    /// The notice on screen after this option was drawn, where `notice` was on
    /// screen before: a message or the text of a failure takes its place, it goes
    /// where the message is deleted, and it stays otherwise.
    pub open spec fn notice_after(self, notice: Option<NoticeView>) -> Option<NoticeView> {
        match self {
            RenderOptionView::ShowMessage(text) => Some(NoticeView::Message(text)),
            RenderOptionView::ShowError(text) => Some(NoticeView::Error(text)),
            RenderOptionView::DeleteMessage => None,
            _ => notice,
        }
    }

    /// The artwork that comes with this option, if any.
    pub open spec fn new_image(self) -> Option<image::DynamicImage> {
        match self {
            RenderOptionView::NewImage(image) => Some(image),
            _ => None,
        }
    }
}

impl RenderOption {
    /// What the screen shows after this option was drawn, where `notice` was on
    /// screen before: the notice, and the artwork where new artwork came.
    pub fn apply(self, notice: Option<Notice>) -> (shown: (
        Option<Notice>,
        Option<image::DynamicImage>,
    ))
        ensures
            notice_view(shown.0) == self@.notice_after(notice_view(notice)),
            shown.1 == self@.new_image(),
    {
        match self {
            RenderOption::ShowMessage(text) => (Some(Notice::Message(text)), None),
            RenderOption::ShowError(text) => (Some(Notice::Error(text)), None),
            RenderOption::DeleteMessage => (None, None),
            RenderOption::NewImage(image) => (notice, Some(image)),
            RenderOption::Nothing => (notice, None),
        }
    }

    /// Whether the time that a message stays on screen starts anew with this
    /// option: it does for a message and for the text of a failure.
    pub fn shows_text(&self) -> (shows: bool)
        ensures
            shows == (self@ is ShowError || self@ is ShowMessage),
    {
        match self {
            RenderOption::ShowError(_) | RenderOption::ShowMessage(_) => true,
            _ => false,
        }
    }
}

/// What the caller of the session has to do next.
#[derive(Debug)]
pub enum Action {
    /// Nothing.
    Nothing,
    /// Draw the screen.
    Render(RenderOption),
    /// Resolve the navigation, after a lookup of the latest comic number where
    /// the navigation needs one, and hand the result to
    /// [`App::switch_to_comic`].
    Resolve(SwitchToComic),
    /// Fetch the record of the comic and hand it to [`App::on_new_comic`].
    Download(u16),
    /// Fetch the artwork from the address and hand it to [`App::on_new_image`]
    /// together with the generation.
    DownloadImage { url: String, generation: u64 },
    /// Open the address in the web browser, then draw the screen with the message.
    Open { url: String, message: String },
    /// Save the state and leave.
    Quit,
}

/// What an [`Action`] holds, as plain values.
pub enum ActionView {
    Nothing,
    Render(RenderOptionView),
    Resolve(SwitchToComic),
    Download(u16),
    DownloadImage { url: Seq<char>, generation: u64 },
    Open { url: Seq<char>, message: Seq<char> },
    Quit,
}

impl View for Action {
    type V = ActionView;

    open spec fn view(&self) -> ActionView {
        match self {
            Action::Nothing => ActionView::Nothing,
            Action::Render(option) => ActionView::Render(option@),
            Action::Resolve(switch_to_comic) => ActionView::Resolve(*switch_to_comic),
            Action::Download(number) => ActionView::Download(*number),
            Action::DownloadImage { url, generation } => ActionView::DownloadImage {
                url: url@,
                generation: *generation,
            },
            Action::Open { url, message } => ActionView::Open { url: url@, message: message@ },
            Action::Quit => ActionView::Quit,
        }
    }
}

/// What an [`App`] holds, as plain values.
pub struct AppView {
    pub running: bool,
    pub state: StateView,
    pub process_image: bool,
    pub xkcd_url: Seq<char>,
    pub explanation_url: Seq<char>,
    pub comic: ComicView,
    pub generation: u64,
}

/// The generation that follows `generation`. The count starts again at 0 after
/// the largest number.
pub open spec fn next_generation(generation: u64) -> u64 {
    if generation == u64::MAX {
        0
    } else {
        (generation + 1) as u64
    }
}

impl AppView {
    /// The address that is opened in the web browser: the address of the site,
    /// followed by the number of the comic on screen.
    pub open spec fn browser_address(self, open_in_browser: OpenInBrowser) -> Seq<char> {
        let site = match open_in_browser {
            OpenInBrowser::Comic => self.xkcd_url,
            OpenInBrowser::Explanation => self.explanation_url,
        };
        site + decimal(self.comic.number as nat)
    }

    /// The session after a command.
    pub open spec fn after_command(self, command: CommandToApp) -> AppView {
        match command {
            CommandToApp::Quit => AppView { running: false, ..self },
            CommandToApp::ToggleProcessing => AppView {
                process_image: !self.process_image,
                ..self
            },
            CommandToApp::ToggleBookmark => AppView { state: self.state.toggled(), ..self },
            _ => self,
        }
    }

    /// What has to be done for a command.
    pub open spec fn action_for(self, command: CommandToApp) -> ActionView {
        match command {
            CommandToApp::Quit => ActionView::Quit,
            CommandToApp::SwitchToComic(switch_to_comic) => ActionView::Resolve(switch_to_comic),
            CommandToApp::ToggleProcessing => ActionView::Render(
                RenderOptionView::ShowMessage(
                    if self.process_image {
                        "Image processing off"@
                    } else {
                        "Image processing on"@
                    },
                ),
            ),
            CommandToApp::ToggleBookmark => ActionView::Render(
                RenderOptionView::ShowMessage(
                    if self.state.toggled().bookmarked_comic is Some {
                        "Bookmarked comic"@
                    } else {
                        "Unbookmarked comic"@
                    },
                ),
            ),
            CommandToApp::OpenInBrowser(open_in_browser) => ActionView::Open {
                url: self.browser_address(open_in_browser),
                message: match open_in_browser {
                    OpenInBrowser::Comic => "Opened comic in your browser!"@,
                    OpenInBrowser::Explanation => "Opened explanation in your browser!"@,
                },
            },
            CommandToApp::HandleResize => ActionView::Render(RenderOptionView::Nothing),
            CommandToApp::Nothing => ActionView::Nothing,
        }
    }

    /// The session after a navigation was resolved. A failed navigation leaves it
    /// as it is.
    pub open spec fn after_navigation(self, resolved: Result<u16, Failure>) -> AppView {
        match resolved {
            Ok(number) => AppView { state: self.state.navigated(number), ..self },
            Err(_) => self,
        }
    }

    /// What has to be done after a navigation was resolved: the comic is fetched
    /// where it is not the current one, and a failure is shown.
    pub open spec fn action_for_navigation(self, resolved: Result<u16, Failure>) -> ActionView {
        match resolved {
            Ok(number) => if number != self.state.current_comic {
                ActionView::Download(number)
            } else {
                ActionView::Render(RenderOptionView::Nothing)
            },
            Err(failure) => ActionView::Render(RenderOptionView::ShowError(failure.text())),
        }
    }

    /// The session after the fetch of a comic's record ended. A comic that was
    /// fetched is the one on screen from then on, and its artwork is asked for
    /// under the next generation.
    pub open spec fn after_comic(self, comic: Result<ComicView, Failure>) -> AppView {
        match comic {
            Ok(comic) => AppView { comic, generation: next_generation(self.generation), ..self },
            Err(_) => self,
        }
    }

    /// What has to be done after the fetch of a comic's record ended.
    pub open spec fn action_for_comic(self, comic: Result<ComicView, Failure>) -> ActionView {
        match comic {
            Ok(comic) => ActionView::DownloadImage {
                url: comic.image_url,
                generation: next_generation(self.generation),
            },
            Err(failure) => ActionView::Render(RenderOptionView::ShowError(failure.text())),
        }
    }

    /// What has to be done after the fetch of artwork ended that was asked for
    /// under `generation`. Artwork that was asked for before the latest request
    /// is dropped.
    pub open spec fn action_for_image(
        self,
        generation: u64,
        image: Result<image::DynamicImage, Failure>,
    ) -> ActionView {
        if generation != self.generation {
            ActionView::Nothing
        } else {
            match image {
                Ok(image) => ActionView::Render(RenderOptionView::NewImage(image)),
                Err(failure) => ActionView::Render(RenderOptionView::ShowError(failure.text())),
            }
        }
    }
}

/// The session of the browser.
#[derive(Debug)]
pub struct App {
    running: bool,
    state: State,
    process_image: bool,
    xkcd_url: String,
    explanation_url: String,
    comic: Comic,
    generation: u64,
}

impl View for App {
    type V = AppView;

    closed spec fn view(&self) -> AppView {
        AppView {
            running: self.running,
            state: self.state@,
            process_image: self.process_image,
            xkcd_url: self.xkcd_url@,
            explanation_url: self.explanation_url@,
            comic: self.comic@,
            generation: self.generation,
        }
    }
}

impl App {
    /// A running session that shows `comic`, with image processing on. The
    /// addresses are those that the number of a comic is added to for the web
    /// browser.
    pub fn new(state: State, comic: Comic, xkcd_url: String, explanation_url: String) -> (app: App)
        ensures
            app@ == (AppView {
                running: true,
                state: state@,
                process_image: true,
                xkcd_url: xkcd_url@,
                explanation_url: explanation_url@,
                comic: comic@,
                generation: 0,
            }),
    {
        App {
            running: true,
            state,
            process_image: true,
            xkcd_url,
            explanation_url,
            comic,
            generation: 0,
        }
    }

    /// Whether the session goes on.
    pub fn is_running(&self) -> (running: bool)
        ensures
            running == self@.running,
    {
        self.running
    }

    /// The comic on screen and the bookmark, as they are kept for the next run.
    pub fn state(&self) -> (state: &State)
        ensures
            state@ == self@.state,
            state@.valid(),
    {
        proof {
            use_type_invariant(&self.state);
        }
        &self.state
    }

    /// Whether the recoloured artwork is shown, and not the artwork as it came.
    pub fn process_image(&self) -> (process_image: bool)
        ensures
            process_image == self@.process_image,
    {
        self.process_image
    }

    /// The comic on screen.
    pub fn comic(&self) -> (comic: &Comic)
        ensures
            comic@ == self@.comic,
    {
        &self.comic
    }

    /// The generation of the latest request for artwork.
    pub fn generation(&self) -> (generation: u64)
        ensures
            generation == self@.generation,
    {
        self.generation
    }

    /// The address that is opened in the web browser.
    pub fn open_in_browser(&self, open_in_browser: OpenInBrowser) -> (url: String)
        ensures
            url@ == self@.browser_address(open_in_browser),
    {
        let mut url = match open_in_browser {
            OpenInBrowser::Comic => self.xkcd_url.clone(),
            OpenInBrowser::Explanation => self.explanation_url.clone(),
        };
        push_decimal(&mut url, self.comic.number());
        url
    }

    /// Takes a command of the user.
    pub fn handle_command(&mut self, command: CommandToApp) -> (action: Action)
        ensures
            final(self)@ == old(self)@.after_command(command),
            action@ == old(self)@.action_for(command),
    {
        match command {
            CommandToApp::Quit => {
                self.running = false;
                Action::Quit
            },
            CommandToApp::SwitchToComic(switch_to_comic) => Action::Resolve(switch_to_comic),
            CommandToApp::ToggleProcessing => {
                self.process_image = !self.process_image;
                Action::Render(
                    RenderOption::ShowMessage(
                        if self.process_image {
                            "Image processing on".to_owned()
                        } else {
                            "Image processing off".to_owned()
                        },
                    ),
                )
            },
            CommandToApp::ToggleBookmark => {
                let bookmarked = self.state.toggle_bookmark();
                Action::Render(
                    RenderOption::ShowMessage(
                        if bookmarked {
                            "Bookmarked comic".to_owned()
                        } else {
                            "Unbookmarked comic".to_owned()
                        },
                    ),
                )
            },
            CommandToApp::OpenInBrowser(open_in_browser) => Action::Open {
                url: self.open_in_browser(open_in_browser),
                message: match open_in_browser {
                    OpenInBrowser::Comic => "Opened comic in your browser!".to_owned(),
                    OpenInBrowser::Explanation => "Opened explanation in your browser!".to_owned(),
                },
            },
            CommandToApp::HandleResize => Action::Render(RenderOption::Nothing),
            CommandToApp::Nothing => Action::Nothing,
        }
    }

    /// Takes an event of the terminal: its command, where it stands for one.
    pub fn handle_crossterm_event(&mut self, event: TerminalEvent) -> (action: Action)
        ensures
            match event.command() {
                Some(command) => final(self)@ == old(self)@.after_command(command) && action@
                    == old(self)@.action_for(command),
                None => final(self)@ == old(self)@ && action@ == ActionView::Nothing,
            },
    {
        let command = match event {
            TerminalEvent::Key(command) => command,
            TerminalEvent::Resize => Some(CommandToApp::HandleResize),
            TerminalEvent::Other => None,
        };
        match command {
            Some(command) => self.handle_command(command),
            None => Action::Nothing,
        }
    }

    /// Takes the number that a navigation was resolved to, or the failure to
    /// resolve it.
    pub fn switch_to_comic(&mut self, resolved: Result<u16, Failure>) -> (action: Action)
        ensures
            final(self)@ == old(self)@.after_navigation(resolved),
            action@ == old(self)@.action_for_navigation(resolved),
    {
        match resolved {
            Ok(number) => {
                if self.state.switch_to(number) {
                    Action::Download(number)
                } else {
                    Action::Render(RenderOption::Nothing)
                }
            },
            Err(failure) => Action::Render(RenderOption::ShowError(failure.message())),
        }
    }

    /// Takes the comic that was fetched, or the failure to fetch it.
    pub fn on_new_comic(&mut self, comic: Result<Comic, Failure>) -> (action: Action)
        ensures
            final(self)@ == old(self)@.after_comic(crate::comic::result_view(comic)),
            action@ == old(self)@.action_for_comic(crate::comic::result_view(comic)),
    {
        match comic {
            Ok(comic) => {
                self.generation = if self.generation == u64::MAX {
                    0
                } else {
                    self.generation + 1
                };
                let url = comic.image_url().to_owned();
                self.comic = comic;
                Action::DownloadImage { url, generation: self.generation }
            },
            Err(failure) => Action::Render(RenderOption::ShowError(failure.message())),
        }
    }

    /// Takes the artwork that was fetched under `generation`, or the failure to
    /// fetch it.
    pub fn on_new_image(
        &self,
        generation: u64,
        image: Result<image::DynamicImage, Failure>,
    ) -> (action: Action)
        ensures
            action@ == self@.action_for_image(generation, image),
    {
        if generation != self.generation {
            Action::Nothing
        } else {
            match image {
                Ok(image) => Action::Render(RenderOption::NewImage(image)),
                Err(failure) => Action::Render(RenderOption::ShowError(failure.message())),
            }
        }
    }
}

/// A navigation that fails leaves the whole session as it was: the current comic
/// and the bookmark are not touched, and the failure is shown.
pub proof fn law_failed_navigation_changes_nothing(app: AppView, failure: Failure)
    ensures
        app.after_navigation(Err(failure)) == app,
        app.action_for_navigation(Err(failure)) == ActionView::Render(
            RenderOptionView::ShowError(failure.text()),
        ),
{
}

/// A fetch that fails leaves the comic on screen and the state as they were.
pub proof fn law_failed_fetch_changes_nothing(app: AppView, failure: Failure)
    ensures
        app.after_comic(Err(failure)) == app,
{
}

/// Artwork that was asked for before a newer comic was fetched is dropped when it
/// arrives, whether its fetch succeeded or not, and the artwork of the newer comic
/// is taken.
pub proof fn law_superseded_artwork_is_dropped(
    app: AppView,
    comic: ComicView,
    image: Result<image::DynamicImage, Failure>,
)
    ensures
        app.after_comic(Ok(comic)).action_for_image(app.generation, image) == ActionView::Nothing,
        app.after_comic(Ok(comic)).action_for_image(next_generation(app.generation), image)
            != ActionView::Nothing,
{
}

/// No command, navigation or fetch makes a valid state invalid.
pub proof fn law_state_stays_valid(
    app: AppView,
    command: CommandToApp,
    resolved: Result<u16, Failure>,
    comic: Result<ComicView, Failure>,
)
    requires
        app.state.valid(),
    ensures
        app.after_command(command).state.valid(),
        app.after_navigation(resolved).state.valid(),
        app.after_comic(comic).state.valid(),
{
}

/// Only a navigation changes the current comic, and only the bookmark command
/// changes the bookmark.
pub proof fn law_commands_keep_current_comic(app: AppView, command: CommandToApp)
    ensures
        app.after_command(command).state.current_comic == app.state.current_comic,
        !(command is ToggleBookmark) ==> app.after_command(command).state == app.state,
        app.after_command(command).running == (app.running && !(command is Quit)),
{
}

} // verus!
