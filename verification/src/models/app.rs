use vstd::prelude::*;
use crate::lookup::{first_match, lemma_first_match_ends, lemma_first_match_index, lemma_first_match_step};

verus! {

/// Label that names the application shown for a container.
pub const NAME_LABEL: &'static str = "es.atareao.board.name";
/// Label holding the application's description.
pub const DESCRIPTION_LABEL: &'static str = "es.atareao.board.description";
/// Label holding the application's URL.
pub const URL_LABEL: &'static str = "es.atareao.board.url";
/// Label holding the application's icon.
pub const ICON_LABEL: &'static str = "es.atareao.board.icon";
/// Label that says whether the application opens in a new tab.
pub const NEW_TAB_LABEL: &'static str = "es.atareao.board.new_tab";

/// What the board reads of a container listed by Docker.  Its labels are
/// the container's key/value labels; Docker gives them as a map, so each key
/// occurs once (`labels_are_a_map`).
#[derive(Debug)]
pub struct ContainerInfo {
    pub labels: Option<Vec<(String, String)>>,
    pub id: Option<String>,
    pub names: Option<Vec<String>>,
    pub image: Option<String>,
    pub image_id: Option<String>,
    pub state: Option<String>,
}

/// The label binds `key`.
pub open spec fn binds(key: Seq<char>) -> spec_fn((String, String)) -> bool {
    |l: (String, String)| l.0@ == key
}

/// The value of the label `key`: the first binding of `key` in `labels`.
pub open spec fn label_value(labels: Seq<(String, String)>, key: Seq<char>) -> Option<Seq<char>> {
    match first_match(labels, binds(key)) {
        Some(l) => Some(l.1@),
        None => None,
    }
}

/// The value of the label `key`, or the empty string when there is none.
pub open spec fn label_or_empty(labels: Seq<(String, String)>, key: Seq<char>) -> Seq<char> {
    match label_value(labels, key) {
        Some(v) => v,
        None => Seq::empty(),
    }
}

/// Each key occurs at most once among the labels.
pub open spec fn keys_distinct(labels: Seq<(String, String)>) -> bool {
    forall|i: int, j: int| 0 <= i < j < labels.len() ==> (#[trigger] labels[i]).0@ != (#[trigger] labels[j]).0@
}

/// Some label binds `key`.
pub open spec fn has_key(labels: Seq<(String, String)>, key: Seq<char>) -> bool {
    exists|i: int| 0 <= i < labels.len() && (#[trigger] labels[i]).0@ == key
}

/// The labels as a map from each key to the value of a label binding it.
pub open spec fn label_map(labels: Seq<(String, String)>) -> Map<Seq<char>, Seq<char>> {
    Map::new(
        |key: Seq<char>| has_key(labels, key),
        |key: Seq<char>| labels[choose|i: int| 0 <= i < labels.len() && (#[trigger] labels[i]).0@ == key].1@,
    )
}

/// When each key occurs once, the value of a label is what the label map
/// holds for its key, as a lookup in Docker's label map gives it.
pub proof fn lemma_label_value_is_map_lookup(labels: Seq<(String, String)>, key: Seq<char>)
    requires
        keys_distinct(labels),
    ensures
        label_value(labels, key) == (if label_map(labels).dom().contains(key) {
            Some(label_map(labels)[key])
        } else {
            None::<Seq<char>>
        }),
{
    let p = binds(key);
    lemma_first_match_index(labels, p);
    if first_match(labels, p) is Some {
        let i = choose|i: int|
            0 <= i < labels.len() && p(labels[i]) && first_match(labels, p) == Some(#[trigger] labels[i])
                && forall|j: int| 0 <= j < i ==> !p(#[trigger] labels[j]);
        assert(has_key(labels, key));
        let k = choose|k: int| 0 <= k < labels.len() && (#[trigger] labels[k]).0@ == key;
        assert(k == i) by {
            if k < i {
                assert(labels[k].0@ != labels[i].0@);
            } else if i < k {
                assert(labels[i].0@ != labels[k].0@);
            }
        }
    } else {
        assert(!has_key(labels, key)) by {
            if has_key(labels, key) {
                let k = choose|k: int| 0 <= k < labels.len() && (#[trigger] labels[k]).0@ == key;
                assert(p(labels[k]));
            }
        }
    }
}

impl ContainerInfo {
    /// Each label key of the container occurs once, as in the map Docker gives.
    pub open spec fn labels_are_a_map(&self) -> bool {
        self.labels matches Some(l) ==> keys_distinct(l@)
    }

    /// The container has labels, and one of them names its application.
    pub open spec fn names_an_app(&self) -> bool {
        &&& self.labels is Some
        &&& label_value(self.labels->0@, NAME_LABEL@) is Some
    }
}

/// Looks up the label `key`.
pub fn find_label(labels: &Vec<(String, String)>, key: &str) -> (r: Option<String>)
    ensures
        r matches Some(v) ==> label_value(labels@, key@) == Some(v@),
        r is None <==> label_value(labels@, key@) is None,
{
    let ghost p = binds(key@);
    proof {
        lemma_first_match_ends(labels@, p);
    }
    let mut i: usize = 0;
    while i < labels.len()
        invariant
            i <= labels@.len(),
            p == binds(key@),
            first_match(labels@, p) == first_match(labels@.skip(i as int), p),
        decreases labels@.len() - i,
    {
        proof {
            lemma_first_match_step(labels@, p, i as int);
        }
        if labels[i].0.as_str().eq(key) {
            return Some(labels[i].1.clone());
        }
        i = i + 1;
    }
    None
}

/// An application shown on the board.
#[derive(Debug)]
pub struct App {
    pub name: String,
    pub description: String,
    pub url: String,
    pub icon: String,
    pub new_tab: bool,
    pub container_id: Option<String>,
    pub container_name: Option<Vec<String>>,
    pub image_name: Option<String>,
    pub image_id: Option<String>,
    pub state: Option<String>,
}

/// What an application is, as values: each text as its characters.
pub struct AppView {
    pub name: Seq<char>,
    pub description: Seq<char>,
    pub url: Seq<char>,
    pub icon: Seq<char>,
    pub new_tab: bool,
    pub container_id: Option<Seq<char>>,
    pub container_name: Option<Seq<Seq<char>>>,
    pub image_name: Option<Seq<char>>,
    pub image_id: Option<Seq<char>>,
    pub state: Option<Seq<char>>,
}

impl View for App {
    type V = AppView;

    open spec fn view(&self) -> AppView {
        AppView {
            name: self.name@,
            description: self.description@,
            url: self.url@,
            icon: self.icon@,
            new_tab: self.new_tab,
            container_id: self.container_id.deep_view(),
            container_name: self.container_name.deep_view(),
            image_name: self.image_name.deep_view(),
            image_id: self.image_id.deep_view(),
            state: self.state.deep_view(),
        }
    }
}

/// Copies an optional text.
fn clone_text(t: &Option<String>) -> (r: Option<String>)
    ensures
        r == *t,
{
    match t {
        Some(s) => Some(s.clone()),
        None => None,
    }
}

/// Copies an optional list of texts.
fn clone_texts(t: &Option<Vec<String>>) -> (r: Option<Vec<String>>)
    ensures
        r.deep_view() == t.deep_view(),
{
    match t {
        Some(v) => {
            let mut out: Vec<String> = Vec::new();
            let mut i: usize = 0;
            while i < v.len()
                invariant
                    i <= v@.len(),
                    out@ == v@.take(i as int),
                decreases v@.len() - i,
            {
                out.push(v[i].clone());
                proof {
                    assert(v@.take(i + 1) =~= v@.take(i as int).push(v@[i as int]));
                }
                i = i + 1;
            }
            proof {
                assert(v@.take(v@.len() as int) =~= v@);
                assert(out.deep_view() =~= v.deep_view());
            }
            Some(out)
        },
        None => None,
    }
}

impl Clone for App {
    fn clone(&self) -> (r: Self)
        ensures
            r@ == self@,
    {
        App {
            name: self.name.clone(),
            description: self.description.clone(),
            url: self.url.clone(),
            icon: self.icon.clone(),
            new_tab: self.new_tab,
            container_id: clone_text(&self.container_id),
            container_name: clone_texts(&self.container_name),
            image_name: clone_text(&self.image_name),
            image_id: clone_text(&self.image_id),
            state: clone_text(&self.state),
        }
    }
}

impl App {
    /// `self` is the application that the container `summary` describes:
    /// name, description, URL and icon come from its labels (the last three
    /// empty when absent), it opens in a new tab unless its new-tab label is
    /// present and other than `true`, and the container's identity is kept.
    pub open spec fn built_from(self, summary: ContainerInfo) -> bool {
        let labels = summary.labels->0@;
        &&& label_value(labels, NAME_LABEL@) == Some(self.name@)
        &&& self.description@ == label_or_empty(labels, DESCRIPTION_LABEL@)
        &&& self.url@ == label_or_empty(labels, URL_LABEL@)
        &&& self.icon@ == label_or_empty(labels, ICON_LABEL@)
        &&& self.new_tab == match label_value(labels, NEW_TAB_LABEL@) {
            Some(v) => v == "true"@,
            None => true,
        }
        &&& self.container_id == summary.id
        &&& self.container_name == summary.names
        &&& self.image_name == summary.image
        &&& self.image_id == summary.image_id
        &&& self.state == summary.state
    }

    /// Builds the application that a labelled container describes.
    pub fn from_summary(summary: ContainerInfo) -> (app: App)
        requires
            summary.names_an_app(),
        ensures
            app.built_from(summary),
    {
        let labels = match &summary.labels {
            Some(l) => l,
            None => unreached(),
        };
        let name = match find_label(labels, NAME_LABEL) {
            Some(n) => n,
            None => unreached(),
        };
        let description = match find_label(labels, DESCRIPTION_LABEL) {
            Some(d) => d,
            None => "".to_owned(),
        };
        let url = match find_label(labels, URL_LABEL) {
            Some(u) => u,
            None => "".to_owned(),
        };
        let icon = match find_label(labels, ICON_LABEL) {
            Some(i) => i,
            None => "".to_owned(),
        };
        let new_tab = match find_label(labels, NEW_TAB_LABEL) {
            Some(v) => v.as_str().eq("true"),
            None => true,
        };
        proof {
            assert(""@ =~= Seq::<char>::empty()) by {
                reveal_strlit("");
            }
        }
        App {
            name,
            description,
            url,
            icon,
            new_tab,
            container_id: summary.id,
            container_name: summary.names,
            image_name: summary.image,
            image_id: summary.image_id,
            state: summary.state,
        }
    }
}

} // verus!
