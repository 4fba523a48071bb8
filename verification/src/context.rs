//! The context drawer: a side panel that shows one page at a time, and the
//! messages that open and close it.
//!
//! The drawer is either hidden or shows a page. Asking for the page on
//! display hides the drawer; asking for any other page shows that page.

use vstd::prelude::*;

verus! {

/// The address of the project's repository, to which the about page links.
pub const REPOSITORY: &'static str = "https://github.com/MyNameIs-13/shell-shortcuts";

/// A page that the context drawer can show.
#[derive(Copy, Clone, Debug, PartialEq, Eq, Structural)]
pub enum ContextPage {
    About,
}

impl Default for ContextPage {
    fn default() -> (page: Self)
        ensures
            page == ContextPage::About,
    {
        ContextPage::About
    }
}

impl ContextPage {
    /// The name under which the title of the page is filed among the texts
    /// of the user interface.
    pub open spec fn title_id(self) -> Seq<char> {
        match self {
            ContextPage::About => "about"@,
        }
    }

    /// The name under which the title of the page is filed among the texts
    /// of the user interface; the text itself is looked up where the language
    /// of the user is known.
    pub fn title(&self) -> (title: String)
        ensures
            title@ == self.title_id(),
    {
        match self {
            ContextPage::About => "about".to_string(),
        }
    }
}

/// What a [`Message`] stands for.
pub enum MessageModel {
    LaunchUrl(Seq<char>),
    ToggleContextPage(ContextPage),
}

/// What the user interface reports to the application.
#[derive(Debug)]
pub enum Message {
    /// A link to the given address was followed.
    LaunchUrl(String),
    /// The given page of the context drawer was asked for.
    ToggleContextPage(ContextPage),
}

impl View for Message {
    type V = MessageModel;

    open spec fn view(&self) -> MessageModel {
        match self {
            Message::LaunchUrl(url) => MessageModel::LaunchUrl(url@),
            Message::ToggleContextPage(page) => MessageModel::ToggleContextPage(*page),
        }
    }
}

impl Clone for Message {
    fn clone(&self) -> (copy: Self)
        ensures
            copy@ == self@,
    {
        match self {
            Message::LaunchUrl(url) => Message::LaunchUrl(url.clone()),
            Message::ToggleContextPage(page) => Message::ToggleContextPage(*page),
        }
    }
}

/// An entry of the menu bar.
#[derive(Copy, Clone, Debug, PartialEq, Eq, Structural)]
pub enum MenuAction {
    About,
}

impl MenuAction {
    /// The message that choosing the entry sends.
    pub fn message(&self) -> (message: Message)
        ensures
            message@ == (match self {
                MenuAction::About => MessageModel::ToggleContextPage(ContextPage::About),
            }),
    {
        match self {
            MenuAction::About => Message::ToggleContextPage(ContextPage::About),
        }
    }
}

/// The state of the context drawer.
#[derive(Copy, Clone, Debug, PartialEq, Eq, Structural)]
pub enum ContextDrawer {
    /// The drawer is closed.
    Hidden,
    /// The drawer is open on the given page.
    Shown(ContextPage),
}

impl Default for ContextDrawer {
    fn default() -> (drawer: Self)
        ensures
            drawer == ContextDrawer::Hidden,
    {
        ContextDrawer::Hidden
    }
}

impl ContextDrawer {
    /// The drawer as it is when the application starts: hidden.
    pub fn new() -> (drawer: Self)
        ensures
            drawer == ContextDrawer::Hidden,
    {
        ContextDrawer::Hidden
    }

    /// The drawer after `page` was asked for: hidden where it showed that
    /// very page, and showing `page` otherwise.
    pub open spec fn toggled(self, page: ContextPage) -> ContextDrawer {
        if self == ContextDrawer::Shown(page) {
            ContextDrawer::Hidden
        } else {
            ContextDrawer::Shown(page)
        }
    }

    /// Asks for `page`: hides the drawer where it shows that very page, and
    /// shows `page` otherwise.
    pub fn toggle(self, page: ContextPage) -> (next: Self)
        ensures
            next == self.toggled(page),
    {
        match self {
            ContextDrawer::Shown(shown) => {
                if shown == page {
                    ContextDrawer::Hidden
                } else {
                    ContextDrawer::Shown(page)
                }
            },
            ContextDrawer::Hidden => ContextDrawer::Shown(page),
        }
    }

    /// Whether the drawer is open.
    pub fn is_shown(&self) -> (shown: bool)
        ensures
            shown == (*self != ContextDrawer::Hidden),
    {
        match self {
            ContextDrawer::Hidden => false,
            ContextDrawer::Shown(_) => true,
        }
    }

    /// The page to draw in the drawer: none while it is hidden.
    pub fn page(&self) -> (page: Option<ContextPage>)
        ensures
            page == (match *self {
                ContextDrawer::Hidden => None,
                ContextDrawer::Shown(shown) => Some(shown),
            }),
    {
        match self {
            ContextDrawer::Hidden => None,
            ContextDrawer::Shown(shown) => Some(*shown),
        }
    }
}

/// What an [`Effect`] stands for.
pub enum EffectModel {
    OpenUrl(Seq<char>),
    SetContextTitle(Seq<char>),
}

/// What the application has to do after a message, besides keeping the new
/// state of the drawer.
#[derive(Debug)]
pub enum Effect {
    /// Open the given address with the program that the desktop has for it.
    OpenUrl(String),
    /// Give the context drawer the title filed under the given name.
    SetContextTitle(String),
}

impl View for Effect {
    type V = EffectModel;

    open spec fn view(&self) -> EffectModel {
        match self {
            Effect::OpenUrl(url) => EffectModel::OpenUrl(url@),
            Effect::SetContextTitle(title) => EffectModel::SetContextTitle(title@),
        }
    }
}

/// The drawer and the effect that follow from a message.
pub open spec fn updated(drawer: ContextDrawer, message: MessageModel) -> (
    ContextDrawer,
    EffectModel,
) {
    match message {
        MessageModel::LaunchUrl(url) => (drawer, EffectModel::OpenUrl(url)),
        MessageModel::ToggleContextPage(page) => (
            drawer.toggled(page),
            EffectModel::SetContextTitle(page.title_id()),
        ),
    }
}

/// Handles a message. A followed link leaves the drawer as it is and asks
/// for the address to be opened. A request for a page toggles the drawer and
/// asks for the title of that page, whether the drawer ends up open or not.
pub fn update(drawer: ContextDrawer, message: Message) -> (next: (ContextDrawer, Effect))
    ensures
        (next.0, next.1@) == updated(drawer, message@),
{
    match message {
        Message::LaunchUrl(url) => (drawer, Effect::OpenUrl(url)),
        Message::ToggleContextPage(page) => (
            drawer.toggle(page),
            Effect::SetContextTitle(page.title()),
        ),
    }
}

/// Asking for a page that is not on display shows it, whatever the drawer
/// held before; asking for the page on display hides the drawer.
pub proof fn lemma_toggle_shows_or_hides(drawer: ContextDrawer, page: ContextPage)
    ensures
        drawer == ContextDrawer::Shown(page) ==> drawer.toggled(page) == ContextDrawer::Hidden,
        drawer != ContextDrawer::Shown(page) ==> drawer.toggled(page) == ContextDrawer::Shown(page),
        ContextDrawer::Hidden.toggled(page) == ContextDrawer::Shown(page),
        ContextDrawer::Hidden.toggled(page).toggled(page) == ContextDrawer::Hidden,
{
}

/// Two requests in a row. A second request for another page than the first
/// shows that page, whatever the drawer held before. A second request for the
/// same page undoes the first, unless the first one hid the drawer: then the
/// page is back on display.
pub proof fn lemma_toggle_twice(drawer: ContextDrawer, first: ContextPage, second: ContextPage)
    ensures
        first != second ==> drawer.toggled(first).toggled(second) == ContextDrawer::Shown(second),
        first == second && drawer != ContextDrawer::Shown(first) ==> drawer.toggled(first).toggled(
            second,
        ) == ContextDrawer::Hidden,
        first == second && drawer == ContextDrawer::Shown(first) ==> drawer.toggled(first).toggled(
            second,
        ) == drawer,
{
}

} // verus!
