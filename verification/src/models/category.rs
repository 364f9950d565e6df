use vstd::prelude::*;
use crate::models::app::{App, AppView, ContainerInfo, NAME_LABEL};

verus! {

/// Label that marks a container as shown on the board.
pub const ACTIVE_LABEL: &'static str = "es.atareao.board.active";
/// Label that names the category a container belongs to.
pub const CATEGORY_LABEL: &'static str = "es.atareao.board.category";

/// A group of applications on the board.
#[derive(Debug)]
pub struct Category {
    pub name: String,
    pub icon: String,
    pub description: String,
    pub apps: Vec<App>,
}

/// What a category is, as values.
pub struct CategoryView {
    pub name: Seq<char>,
    pub icon: Seq<char>,
    pub description: Seq<char>,
    pub apps: Seq<AppView>,
}

impl View for Category {
    type V = CategoryView;

    open spec fn view(&self) -> CategoryView {
        CategoryView {
            name: self.name@,
            icon: self.icon@,
            description: self.description@,
            apps: self.apps@.map_values(|a: App| a@),
        }
    }
}

impl Clone for Category {
    fn clone(&self) -> (r: Self)
        ensures
            r@ == self@,
    {
        let apps = self.apps.clone();
        proof {
            assert forall|i: int| 0 <= i < apps@.len() implies #[trigger] apps@[i]@ == self.apps@[i]@ by {
                assert(cloned::<App>(self.apps[i], apps[i]));
            }
            assert(apps@.map_values(|a: App| a@) =~= self.apps@.map_values(|a: App| a@));
        }
        Category { name: self.name.clone(), icon: self.icon.clone(), description: self.description.clone(), apps }
    }
}

/// The applications of a category that its configuration does not list.
pub fn get_default_apps() -> (apps: Vec<App>)
    ensures
        apps@.len() == 0,
{
    Vec::new()
}

/// A condition on container labels, to select containers from Docker.
#[derive(Debug)]
pub enum LabelFilter {
    /// The container has the label with this value.
    Label(String, String),
    /// The container has the label, whatever its value.
    LabelKey(String),
}

impl Category {
    /// The containers shown in this category: active ones, labelled with
    /// the category's name, that name an application.
    pub fn container_filters(&self) -> (filters: Vec<LabelFilter>)
        ensures
            filters@.len() == 3,
            filters@[0] matches LabelFilter::Label(k, v) && k@ == ACTIVE_LABEL@ && v@ == "true"@,
            filters@[1] matches LabelFilter::Label(k, v) && k@ == CATEGORY_LABEL@ && v@ == self.name@,
            filters@[2] matches LabelFilter::LabelKey(k) && k@ == NAME_LABEL@,
    {
        let mut filters: Vec<LabelFilter> = Vec::new();
        filters.push(LabelFilter::Label(ACTIVE_LABEL.to_owned(), "true".to_owned()));
        filters.push(LabelFilter::Label(CATEGORY_LABEL.to_owned(), self.name.clone()));
        filters.push(LabelFilter::LabelKey(NAME_LABEL.to_owned()));
        filters
    }

    /// Fills the category with the applications of the containers that
    /// Docker listed for it (see `container_filters`); with no listing (the
    /// listing failed) the category is left without applications.
    pub fn init(&mut self, listing: Option<Vec<ContainerInfo>>)
        requires
            listing matches Some(l) ==> forall|i: int| 0 <= i < l@.len() ==> (#[trigger] l@[i]).names_an_app(),
        ensures
            final(self).name == old(self).name,
            final(self).icon == old(self).icon,
            final(self).description == old(self).description,
            listing is None ==> final(self).apps@.len() == 0,
            listing matches Some(l) ==> {
                &&& final(self).apps@.len() == l@.len()
                &&& forall|i: int| 0 <= i < l@.len() ==> (#[trigger] final(self).apps@[i]).built_from(l@[i])
            },
    {
        self.apps = Vec::new();
        match listing {
            None => {},
            Some(l) => {
                let ghost all = l@;
                let mut apps: Vec<App> = Vec::new();
                for summary in it: l.into_iter()
                    invariant
                        it.seq() == all,
                        forall|i: int| 0 <= i < all.len() ==> (#[trigger] all[i]).names_an_app(),
                        apps@.len() == it.index(),
                        forall|j: int| 0 <= j < it.index() ==> (#[trigger] apps@[j]).built_from(all[j]),
                {
                    apps.push(App::from_summary(summary));
                }
                self.apps = apps;
            },
        }
    }
}

} // verus!
