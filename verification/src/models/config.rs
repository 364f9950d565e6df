use vstd::prelude::*;
use crate::lookup::{first_match, lemma_first_match_ends, lemma_first_match_index, lemma_first_match_step};
use crate::models::app::{App, AppView};
use crate::models::category::{Category, CategoryView};
use crate::models::user::User;

verus! {

/// Log level used when the configuration names none.
pub const DEFAULT_LOG_LEVEL: &'static str = "info";
/// Port served when the configuration names none.
pub const DEFAULT_PORT: u16 = 6969;
/// Maximum age of a session, in minutes, when the configuration names none.
pub const DEFAULT_MAX_AGE: i32 = 60;
/// Session lifetime when the configuration names none.
pub const DEFAULT_EXPIRES: &'static str = "60m";

/// The log level used when the configuration names none.
pub fn get_default_log_level() -> (r: String)
    ensures
        r@ == DEFAULT_LOG_LEVEL@,
{
    DEFAULT_LOG_LEVEL.to_owned()
}

/// The port served when the configuration names none.
pub fn get_default_port() -> (r: u16)
    ensures
        r == DEFAULT_PORT,
{
    DEFAULT_PORT
}

/// The session lifetime when the configuration names none.
pub fn get_default_expires() -> (r: String)
    ensures
        r@ == DEFAULT_EXPIRES@,
{
    DEFAULT_EXPIRES.to_owned()
}

/// The maximum session age when the configuration names none.
pub fn get_default_maxage() -> (r: i32)
    ensures
        r == DEFAULT_MAX_AGE,
{
    DEFAULT_MAX_AGE
}

/// The Docker endpoint when the configuration names none: there is none.
pub fn get_default_docker_uri() -> (r: Option<String>)
    ensures
        r is None,
{
    None
}

/// The board's configuration, as read from its configuration file.
#[derive(Debug)]
pub struct Configuration {
    pub url: String,
    pub port: u16,
    pub log_level: String,
    pub jwt_secret: String,
    pub jwt_expires_in: String,
    pub jwt_maxage: i32,
    pub board_name: String,
    pub users: Vec<User>,
    pub categories: Vec<Category>,
    pub docker_uri: Option<String>,
}

impl Clone for Configuration {
    fn clone(&self) -> (r: Self)
        ensures
            r.url == self.url,
            r.port == self.port,
            r.log_level == self.log_level,
            r.jwt_secret == self.jwt_secret,
            r.jwt_expires_in == self.jwt_expires_in,
            r.jwt_maxage == self.jwt_maxage,
            r.board_name == self.board_name,
            r.users@ == self.users@,
            r.categories@.len() == self.categories@.len(),
            forall|i: int| 0 <= i < self.categories@.len() ==> (#[trigger] r.categories@[i])@ == self.categories@[i]@,
            r.docker_uri == self.docker_uri,
    {
        let users = self.users.clone();
        let categories = self.categories.clone();
        proof {
            assert forall|i: int| 0 <= i < users@.len() implies #[trigger] users@[i] == self.users@[i] by {
                assert(cloned::<User>(self.users[i], users[i]));
            }
            assert(users@ =~= self.users@);
            assert forall|i: int| 0 <= i < categories@.len() implies (#[trigger] categories@[i])@ == self.categories@[i]@ by {
                assert(cloned::<Category>(self.categories[i], categories[i]));
            }
        }
        Configuration {
            url: self.url.clone(),
            port: self.port,
            log_level: self.log_level.clone(),
            jwt_secret: self.jwt_secret.clone(),
            jwt_expires_in: self.jwt_expires_in.clone(),
            jwt_maxage: self.jwt_maxage,
            board_name: self.board_name.clone(),
            users,
            categories,
            docker_uri: match &self.docker_uri {
                Some(u) => Some(u.clone()),
                None => None,
            },
        }
    }
}

/// The user is called `name`.
pub open spec fn user_named(name: Seq<char>) -> spec_fn(User) -> bool {
    |u: User| u.name@ == name
}

/// The first user called `name`.
pub open spec fn find_user(users: Seq<User>, name: Seq<char>) -> Option<User> {
    first_match(users, user_named(name))
}

/// The category is called `name`.
pub open spec fn category_named(name: Seq<char>) -> spec_fn(Category) -> bool {
    |c: Category| c.name@ == name
}

/// The first category called `name`.
pub open spec fn find_category(categories: Seq<Category>, name: Seq<char>) -> Option<Category> {
    first_match(categories, category_named(name))
}

/// Two applications clash when they share a name or a URL.
pub open spec fn apps_clash(a: AppView, b: AppView) -> bool {
    a.name == b.name || a.url == b.url
}

/// The category already holds an application that clashes with `app`.
pub open spec fn holds_clashing_app(category: CategoryView, app: AppView) -> bool {
    exists|i: int| 0 <= i < category.apps.len() && apps_clash(#[trigger] category.apps[i], app)
}

/// What adding `app` to the category called `category_name` answers.
pub open spec fn add_app_answer(categories: Seq<Category>, category_name: Seq<char>, app: AppView) -> Result<
    Seq<char>,
    Seq<char>,
> {
    match find_category(categories, category_name) {
        None => Err("Can not add: "@ + app.name),
        Some(c) => if holds_clashing_app(c@, app) {
            Err("Can not add. App exists: "@ + app.name)
        } else {
            Ok("Added: "@ + app.name)
        },
    }
}

/// A user lookup finds a configured user with the name asked for, the first
/// such user; it finds none exactly when no configured user has that name.
pub proof fn lemma_find_user(users: Seq<User>, name: Seq<char>)
    ensures
        find_user(users, name) matches Some(u) ==> exists|i: int|
            0 <= i < users.len() && users[i] == u && u.name@ == name && forall|j: int|
                0 <= j < i ==> (#[trigger] users[j]).name@ != name,
        find_user(users, name) is None <==> forall|i: int| 0 <= i < users.len() ==> (#[trigger] users[i]).name@ != name,
{
    lemma_first_match_index(users, user_named(name));
    assert(forall|i: int| 0 <= i < users.len() ==> (user_named(name)(#[trigger] users[i]) <==> users[i].name@ == name));
}

/// A category lookup finds a configured category with the name asked for,
/// the first such category; it finds none exactly when no configured
/// category has that name.
pub proof fn lemma_find_category(categories: Seq<Category>, name: Seq<char>)
    ensures
        find_category(categories, name) matches Some(c) ==> exists|i: int|
            0 <= i < categories.len() && categories[i] == c && c.name@ == name && forall|j: int|
                0 <= j < i ==> (#[trigger] categories[j]).name@ != name,
        find_category(categories, name) is None <==> forall|i: int|
            0 <= i < categories.len() ==> (#[trigger] categories[i]).name@ != name,
{
    lemma_first_match_index(categories, category_named(name));
    assert(forall|i: int|
        0 <= i < categories.len() ==> (category_named(name)(#[trigger] categories[i]) <==> categories[i].name@ == name));
}

/// An application can be added exactly when its category exists and holds
/// no application with the same name or URL; the answer names the
/// application either way.
pub proof fn lemma_add_app_answer(categories: Seq<Category>, category_name: Seq<char>, app: AppView)
    ensures
        add_app_answer(categories, category_name, app) is Ok <==> (exists|i: int|
            0 <= i < categories.len() && (#[trigger] categories[i]).name@ == category_name)
            && !holds_clashing_app(find_category(categories, category_name)->0@, app),
        add_app_answer(categories, category_name, app) matches Ok(m) ==> m == "Added: "@ + app.name,
        add_app_answer(categories, category_name, app) matches Err(m) ==> (m == "Can not add: "@ + app.name || m
            == "Can not add. App exists: "@ + app.name),
{
    lemma_find_category(categories, category_name);
}

impl Configuration {
    pub fn get_log_level(&self) -> (r: &str)
        ensures
            r@ == self.log_level@,
    {
        self.log_level.as_str()
    }

    pub fn get_port(&self) -> (r: u16)
        ensures
            r == self.port,
    {
        self.port
    }

    pub fn get_url(&self) -> (r: &str)
        ensures
            r@ == self.url@,
    {
        self.url.as_str()
    }

    pub fn get_secret(&self) -> (r: &str)
        ensures
            r@ == self.jwt_secret@,
    {
        self.jwt_secret.as_str()
    }

    pub fn get_board_name(&self) -> (r: &str)
        ensures
            r@ == self.board_name@,
    {
        self.board_name.as_str()
    }

    pub fn get_categories(&self) -> (r: &Vec<Category>)
        ensures
            r == &self.categories,
    {
        &self.categories
    }

    pub fn get_docker_uri(&self) -> (r: Option<String>)
        ensures
            r == self.docker_uri,
    {
        match &self.docker_uri {
            Some(u) => Some(u.clone()),
            None => None,
        }
    }

    /// The first configured user called `name`.
    pub fn get_user(&self, name: &str) -> (r: Option<User>)
        ensures
            r == find_user(self.users@, name@),
    {
        let ghost p = user_named(name@);
        proof {
            lemma_first_match_ends(self.users@, p);
        }
        let mut i: usize = 0;
        while i < self.users.len()
            invariant
                i <= self.users@.len(),
                p == user_named(name@),
                first_match(self.users@, p) == first_match(self.users@.skip(i as int), p),
            decreases self.users@.len() - i,
        {
            proof {
                lemma_first_match_step(self.users@, p, i as int);
            }
            if self.users[i].name.as_str().eq(name) {
                return Some(self.users[i].clone());
            }
            i = i + 1;
        }
        None
    }

    /// A copy of the first configured category called `name`.
    pub fn get_category_by_name(&self, name: &str) -> (r: Option<Category>)
        ensures
            r is None <==> find_category(self.categories@, name@) is None,
            r matches Some(c) ==> c@ == find_category(self.categories@, name@)->0@,
    {
        let ghost p = category_named(name@);
        proof {
            lemma_first_match_ends(self.categories@, p);
        }
        let mut i: usize = 0;
        while i < self.categories.len()
            invariant
                i <= self.categories@.len(),
                p == category_named(name@),
                first_match(self.categories@, p) == first_match(self.categories@.skip(i as int), p),
            decreases self.categories@.len() - i,
        {
            proof {
                lemma_first_match_step(self.categories@, p, i as int);
            }
            if self.categories[i].name.as_str().eq(name) {
                return Some(self.categories[i].clone());
            }
            i = i + 1;
        }
        None
    }

    /// Whether `category` holds an application with the name or the URL of `app`.
    pub fn category_has_app(category: &Category, app: &App) -> (r: bool)
        ensures
            r == holds_clashing_app(category@, app@),
    {
        let mut i: usize = 0;
        while i < category.apps.len()
            invariant
                i <= category.apps@.len(),
                forall|j: int| 0 <= j < i ==> !apps_clash(#[trigger] category@.apps[j], app@),
            decreases category.apps@.len() - i,
        {
            let other = &category.apps[i];
            if app.name == other.name || app.url == other.url {
                proof {
                    assert(apps_clash(category@.apps[i as int], app@));
                }
                return true;
            }
            i = i + 1;
        }
        false
    }

    /// Checks that `app` could be added to the category called
    /// `category_name` and answers with the message the board shows.  The
    /// check is made on a copy of the category, so the configuration itself
    /// is left as it was.
    pub fn add_app_in_category(&mut self, category_name: &str, app: App) -> (r: Result<String, String>)
        ensures
            *final(self) == *old(self),
            match (r, add_app_answer(old(self).categories@, category_name@, app@)) {
                (Ok(m), Ok(s)) => m@ == s,
                (Err(m), Err(s)) => m@ == s,
                _ => false,
            },
    {
        let app_name = app.name.clone();
        match self.get_category_by_name(category_name) {
            Some(mut category) => {
                if Self::category_has_app(&category, &app) {
                    Err("Can not add. App exists: ".to_owned().concat(app_name.as_str()))
                } else {
                    category.apps.push(app);
                    Ok("Added: ".to_owned().concat(app_name.as_str()))
                }
            },
            None => Err("Can not add: ".to_owned().concat(app_name.as_str())),
        }
    }
}

} // verus!
