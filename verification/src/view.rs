//! A renderer-agnostic view of the browser chrome, built from a snapshot of
//! the `BrowserModel`: navigation buttons, the address bar, and the list of
//! widget items that the renderer resolves into actual widgets.

use vstd::prelude::*;

use crate::model::BrowserModel;
use crate::text::owned;

verus! {

broadcast use vstd::string::group_string_axioms;

/// A push button.
#[derive(Debug)]
pub struct ButtonWidget {
    pub id: String,
    /// Translation key of the label, resolved at render time.
    pub label: String,
    pub enabled: bool,
    /// Action sent when the button is pressed.
    pub action: String,
}

/// A single-line text input.
#[derive(Debug)]
pub struct TextInputWidget {
    pub id: String,
    /// Translation key of the placeholder text.
    pub placeholder: String,
    pub value: String,
    pub enabled: bool,
}

/// A list of items.
#[derive(Debug)]
pub struct ListWidget {
    pub id: String,
    pub items: Vec<String>,
    pub selected_index: Option<usize>,
    pub enabled: bool,
}

impl ListWidget {
    /// The widget's id.
    pub fn widget_id(&self) -> (res: &str)
        ensures
            res@ == self.id@,
    {
        self.id.as_str()
    }

    /// Whether the widget accepts input.
    pub fn is_enabled(&self) -> (res: bool)
        ensures
            res == self.enabled,
    {
        self.enabled
    }
}

/// The widgets of the browser chrome.
#[derive(Debug)]
pub struct BrowserChrome {
    pub back: ButtonWidget,
    pub forward: ButtonWidget,
    pub reload: ButtonWidget,
    pub address_bar: TextInputWidget,
}

/// The address shown for a model with no current URL.
pub open spec fn shown_url(model: &BrowserModel) -> Seq<char> {
    match model.current_url {
        Some(u) => u@,
        None => "about:blank"@,
    }
}

/// A snapshot-based view of the browser state.
#[derive(Debug)]
pub struct BrowserView {
    pub model: BrowserModel,
}

impl BrowserView {
    /// Wraps `model` in a renderable view.
    pub fn new(model: BrowserModel) -> (res: Self)
        ensures
            res.model == model,
    {
        BrowserView { model }
    }

    /// The chrome widgets: back and forward are enabled when the history
    /// allows the move, reload and the address bar while no page is
    /// loading; the address bar shows the current URL (`about:blank` when
    /// there is none).
    pub fn chrome(&self) -> (res: BrowserChrome)
        ensures
            res.back.id@ == "browser-btn-back"@,
            res.back.label@ == "browser-btn-back"@,
            res.back.enabled == self.model.history@.can_go_back(),
            res.back.action@ == "back"@,
            res.forward.id@ == "browser-btn-forward"@,
            res.forward.label@ == "browser-btn-forward"@,
            res.forward.enabled == self.model.history@.can_go_forward(),
            res.forward.action@ == "forward"@,
            res.reload.id@ == "browser-btn-refresh"@,
            res.reload.label@ == "browser-btn-refresh"@,
            res.reload.enabled == !self.model.loading,
            res.reload.action@ == "reload"@,
            res.address_bar.id@ == "browser-address-bar"@,
            res.address_bar.placeholder@ == "browser-address-placeholder"@,
            res.address_bar.value@ == shown_url(&self.model),
            res.address_bar.enabled == !self.model.loading,
    {
        let url = match &self.model.current_url {
            Some(u) => u.clone(),
            None => owned("about:blank"),
        };
        BrowserChrome {
            back: ButtonWidget {
                id: owned("browser-btn-back"),
                label: owned("browser-btn-back"),
                enabled: self.model.history.can_go_back(),
                action: owned("back"),
            },
            forward: ButtonWidget {
                id: owned("browser-btn-forward"),
                label: owned("browser-btn-forward"),
                enabled: self.model.history.can_go_forward(),
                action: owned("forward"),
            },
            reload: ButtonWidget {
                id: owned("browser-btn-refresh"),
                label: owned("browser-btn-refresh"),
                enabled: !self.model.loading,
                action: owned("reload"),
            },
            address_bar: TextInputWidget {
                id: owned("browser-address-bar"),
                placeholder: owned("browser-address-placeholder"),
                value: url,
                enabled: !self.model.loading,
            },
        }
    }

    /// The chrome as a list widget `browser-chrome`: the labels of the back,
    /// forward and reload buttons, then the address shown.
    pub fn view(&self) -> (res: ListWidget)
        ensures
            res.id@ == "browser-chrome"@,
            res.items@.map_values(|s: String| s@) == seq![
                "browser-btn-back"@,
                "browser-btn-forward"@,
                "browser-btn-refresh"@,
                shown_url(&self.model),
            ],
            res.selected_index is None,
            res.enabled,
    {
        let chrome = self.chrome();
        let mut items: Vec<String> = Vec::new();
        items.push(chrome.back.label.clone());
        items.push(chrome.forward.label.clone());
        items.push(chrome.reload.label.clone());
        items.push(chrome.address_bar.value.clone());
        let res = ListWidget {
            id: owned("browser-chrome"),
            items,
            selected_index: None,
            enabled: true,
        };
        assert(res.items@.map_values(|s: String| s@) =~= seq![
            "browser-btn-back"@,
            "browser-btn-forward"@,
            "browser-btn-refresh"@,
            shown_url(&self.model),
        ]);
        res
    }
}

} // verus!
