//! Tabs inside a browser window: planning a new tab, remembering which tab
//! each window shows, laying the tabs out when one is activated, and the
//! page commands a tab understands.

use vstd::prelude::*;
use vstd::hash_map::StringHashMap;
use crate::labels::{is_browser_label_text, is_browser_window, profile_dir_name, profile_dir_text, tab_label, tab_label_text, WindowCounter};
use crate::navigation::{parse_web_url, url_parse_accepts, url_parse_outcome};

verus! {

/// Everything a new tab is made of, before its web view is built.
pub struct TabPlan {
    /// The tab's number.
    pub id: u32,
    /// The tab's label, `visor_{id}`.
    pub label: String,
    /// The name of the tab's own profile directory, `visor_profile_{id}`.
    pub profile_dir: String,
    /// The page the tab opens on.
    pub target: url::Url,
}

/// Plans a new tab that opens on `url_text`: takes the next number from the
/// counter (whether or not the URL is good) and names the tab and its
/// profile directory after it; the tab opens on the URL the text parses to,
/// and a text that does not parse is refused with the parser's message.
pub fn plan_tab(counter: &mut WindowCounter, url_text: &str) -> (r: Result<TabPlan, String>)
    requires
        old(counter)@ < u32::MAX,
    ensures
        final(counter)@ == old(counter)@ + 1,
        r is Ok <==> url_parse_accepts(url_text@),
        r matches Ok(p) ==> {
            &&& p.id == final(counter)@
            &&& p.label@ == tab_label_text(p.id as nat)
            &&& p.profile_dir@ == profile_dir_text(p.id as nat)
            &&& url_parse_outcome(url_text@) == Ok::<url::Url, Seq<char>>(p.target)
        },
        r matches Err(m) ==> url_parse_outcome(url_text@) == Err::<url::Url, Seq<char>>(m@),
{
    let id = counter.next_id();
    let label = tab_label(id);
    let target = parse_web_url(url_text)?;
    let profile_dir = profile_dir_name(id);
    Ok(TabPlan { id, label, profile_dir, target })
}

/// Which tab each browser window shows, by window label.
pub struct ActiveTabs {
    by_window: StringHashMap<String>,
}

impl View for ActiveTabs {
    type V = Map<Seq<char>, Seq<char>>;

    closed spec fn view(&self) -> Map<Seq<char>, Seq<char>> {
        self.by_window@.map_values(|v: String| v@)
    }
}

impl ActiveTabs {
    /// No window shows a tab yet.
    pub fn new() -> (t: ActiveTabs)
        ensures
            t@ == Map::<Seq<char>, Seq<char>>::empty(),
    {
        let t = ActiveTabs { by_window: StringHashMap::new() };
        assert(t@ =~= Map::<Seq<char>, Seq<char>>::empty());
        t
    }

    /// Records that window `window` now shows tab `tab`.
    pub fn set_active(&mut self, window: String, tab: String)
        ensures
            final(self)@ == old(self)@.insert(window@, tab@),
    {
        self.by_window.insert(window, tab);
        assert(self@ =~= old(self)@.insert(window@, tab@));
    }

    /// The tab that window `window` shows, if one was recorded.
    pub fn active_for(&self, window: &str) -> (r: Option<String>)
        ensures
            match r {
                Some(t) => self@.contains_key(window@) && t@ == self@[window@],
                None => !self@.contains_key(window@),
            },
    {
        match self.by_window.get(window) {
            Some(t) => Some(t.clone()),
            None => None,
        }
    }

    /// The tab to fit to a window that was resized: only browser windows,
    /// and only when they show a tab.
    pub fn tab_to_fit_after_resize(&self, window: &str) -> (r: Option<String>)
        ensures
            match r {
                Some(t) => is_browser_label_text(window@) && self@.contains_key(window@) && t@ == self@[window@],
                None => !is_browser_label_text(window@) || !self@.contains_key(window@),
            },
    {
        if is_browser_window(window) {
            self.active_for(window)
        } else {
            None
        }
    }
}

/// Where a tab's web view goes when a tab is activated.
#[derive(Clone, Copy, Debug, PartialEq, Eq, Structural)]
pub enum Placement {
    /// Fills the window below the toolbar.
    Content,
    /// Collapsed to nothing in the corner.
    Hidden,
}

/// The placement of every tab named when `active` is activated: the active
/// tab first, shown, then each inactive tab in order, hidden.
pub fn tab_layout(active: &String, inactive: &Vec<String>) -> (r: Vec<(String, Placement)>)
    requires
        inactive@.len() < usize::MAX,
    ensures
        r@.len() == inactive@.len() + 1,
        r@[0].0@ == active@,
        r@[0].1 == Placement::Content,
        forall|i: int|
            0 <= i < inactive@.len() ==> (#[trigger] r@[i + 1]).0@ == inactive@[i]@ && r@[i + 1].1
                == Placement::Hidden,
{
    let mut r: Vec<(String, Placement)> = Vec::new();
    r.push((active.clone(), Placement::Content));
    let mut i: usize = 0;
    while i < inactive.len()
        invariant
            i <= inactive@.len(),
            r@.len() == i + 1,
            r@[0].0@ == active@,
            r@[0].1 == Placement::Content,
            forall|j: int|
                0 <= j < i ==> (#[trigger] r@[j + 1]).0@ == inactive@[j]@ && r@[j + 1].1 == Placement::Hidden,
        decreases inactive@.len() - i,
    {
        r.push((inactive[i].clone(), Placement::Hidden));
        i = i + 1;
    }
    r
}

/// A command that a tab's page can be given.
#[derive(Clone, Copy, Debug, PartialEq, Eq, Structural)]
pub enum PageCommand {
    Back,
    Forward,
    Reload,
}

/// The script that carries out a page command.
pub open spec fn page_script_text(c: PageCommand) -> Seq<char> {
    match c {
        PageCommand::Back => "window.history.back()"@,
        PageCommand::Forward => "window.history.forward()"@,
        PageCommand::Reload => "window.location.reload()"@,
    }
}

impl PageCommand {
    /// The script that carries out this command in the tab's page.
    pub fn script(&self) -> (s: String)
        ensures
            s@ == page_script_text(*self),
    {
        match self {
            PageCommand::Back => String::from_str("window.history.back()"),
            PageCommand::Forward => String::from_str("window.history.forward()"),
            PageCommand::Reload => String::from_str("window.location.reload()"),
        }
    }
}

/// Reading a window's tab gives back the tab last recorded for it, and
/// recording a tab for one window leaves every other window's tab as it was.
pub proof fn lemma_active_tab_read_after_write(
    tabs: Map<Seq<char>, Seq<char>>,
    window: Seq<char>,
    tab: Seq<char>,
    other: Seq<char>,
)
    requires
        other != window,
    ensures
        tabs.insert(window, tab).contains_key(window),
        tabs.insert(window, tab)[window] == tab,
        tabs.insert(window, tab).contains_key(other) == tabs.contains_key(other),
        tabs.contains_key(other) ==> tabs.insert(window, tab)[other] == tabs[other],
{
}

} // verus!
