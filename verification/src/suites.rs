//! The suites through which a module asks the host application, and what
//! the application answers.
//!
//! The application is a plain value here: the suites that it offers, the
//! effects that are installed in it, the projects that are open. A suite is
//! acquired from it and answers from it.

use crate::error::Error;
use vstd::prelude::*;
use vstd::string::StringSliceAdditionalSpecFns;

verus! {

/// The raw key that stands for no installed effect.
pub const INSTALLED_EFFECT_KEY_NONE: i32 = 0;

/// A reference to an installed effect, which may or may not be applied to
/// anything.
#[derive(Debug, Copy, Clone, PartialEq, Eq, Structural)]
pub enum InstalledEffectKey {
    /// No effect: what a walk over the installed effects starts from and
    /// ends with.
    NoKey,
    /// The effect with this raw key.
    Key(i32),
}

impl InstalledEffectKey {
    /// The key that a raw key of the host stands for.
    pub open spec fn of_raw(key: i32) -> InstalledEffectKey {
        if key == INSTALLED_EFFECT_KEY_NONE {
            InstalledEffectKey::NoKey
        } else {
            InstalledEffectKey::Key(key)
        }
    }

    /// The raw key that the host is given for this key.
    pub open spec fn raw(self) -> i32 {
        match self {
            InstalledEffectKey::NoKey => INSTALLED_EFFECT_KEY_NONE,
            InstalledEffectKey::Key(key) => key,
        }
    }
}

impl From<i32> for InstalledEffectKey {
    /// Reads a raw key of the host.
    fn from(key: i32) -> (r: InstalledEffectKey) {
        if key == INSTALLED_EFFECT_KEY_NONE {
            InstalledEffectKey::NoKey
        } else {
            InstalledEffectKey::Key(key)
        }
    }
}

impl vstd::std_specs::convert::FromSpecImpl<i32> for InstalledEffectKey {
    open spec fn obeys_from_spec() -> bool {
        true
    }

    open spec fn from_spec(key: i32) -> InstalledEffectKey {
        InstalledEffectKey::of_raw(key)
    }
}

impl From<InstalledEffectKey> for i32 {
    /// Writes a key as the host reads it.
    fn from(key: InstalledEffectKey) -> (r: i32) {
        match key {
            InstalledEffectKey::NoKey => INSTALLED_EFFECT_KEY_NONE,
            InstalledEffectKey::Key(key) => key,
        }
    }
}

impl vstd::std_specs::convert::FromSpecImpl<InstalledEffectKey> for i32 {
    open spec fn obeys_from_spec() -> bool {
        true
    }

    open spec fn from_spec(key: InstalledEffectKey) -> i32 {
        key.raw()
    }
}

/// Every raw key survives the trip to a key and back. A key survives the
/// trip to a raw key and back unless it wraps the raw key that stands for
/// no effect.
pub proof fn lemma_installed_effect_key_round_trip(raw: i32, key: InstalledEffectKey)
    ensures
        InstalledEffectKey::of_raw(raw).raw() == raw,
        key != InstalledEffectKey::Key(INSTALLED_EFFECT_KEY_NONE) ==> InstalledEffectKey::of_raw(
            key.raw(),
        ) == key,
{
}

/// One effect that is installed in the host application.
pub struct InstalledEffect {
    /// The raw key of the effect, never the one that stands for no effect.
    pub key: i32,
    /// The name that the user sees.
    pub name: String,
    /// The name that projects refer to the effect by.
    pub match_name: String,
    /// The menu category.
    pub category: String,
}

/// The most bytes that the host gives for an effect's name, match name or
/// category.
pub const MAX_EFFECT_NAME_SIZE: usize = 48;

/// Whether bytes can be a text that the host gives for an effect: at most
/// [`MAX_EFFECT_NAME_SIZE`] of them, none of them zero.
pub open spec fn text_fits(bytes: Seq<u8>) -> bool {
    &&& bytes.len() <= MAX_EFFECT_NAME_SIZE
    &&& forall|i: int| 0 <= i < bytes.len() ==> bytes[i] != 0
}

/// Whether a text can be one that the host gives for an effect.
pub open spec fn name_fits(text: String) -> bool {
    text_fits(vstd::utf8::encode_utf8(text@))
}

/// Whether the three texts of an effect can be what the host gives.
pub open spec fn effect_fits(effect: InstalledEffect) -> bool {
    &&& name_fits(effect.name)
    &&& name_fits(effect.match_name)
    &&& name_fits(effect.category)
}

/// Whether the texts of all effects can be what the host gives.
pub open spec fn names_fit(installed: Seq<InstalledEffect>) -> bool {
    forall|i: int| 0 <= i < installed.len() ==> effect_fits(#[trigger] installed[i])
}

/// Whether a text can be one that the host gives for an effect: at most
/// [`MAX_EFFECT_NAME_SIZE`] bytes, none of them zero.
pub fn fits(text: &str) -> (b: bool)
    ensures
        b == text_fits(text.spec_bytes()),
{
    let bytes = text.as_bytes();
    if bytes.len() > MAX_EFFECT_NAME_SIZE {
        return false;
    }
    let mut i: usize = 0;
    while i < bytes.len()
        invariant
            i <= bytes@.len() <= MAX_EFFECT_NAME_SIZE,
            bytes@ == text.spec_bytes(),
            forall|k: int| 0 <= k < i ==> bytes@[k] != 0,
        decreases bytes@.len() - i,
    {
        if bytes[i] == 0 {
            assert(text.spec_bytes()[i as int] == 0);
            return false;
        }
        i += 1;
    }
    true
}

/// Whether no two effects share a key and none has the key that stands for
/// no effect.
pub open spec fn keys_valid(installed: Seq<InstalledEffect>) -> bool {
    &&& forall|i: int| 0 <= i < installed.len() ==> (#[trigger] installed[i]).key
        != INSTALLED_EFFECT_KEY_NONE
    &&& forall|i: int, j: int|
        0 <= i < j < installed.len() ==> (#[trigger] installed[i]).key != (
        #[trigger] installed[j]).key
}

/// Whether an effect with that raw key is installed.
pub open spec fn has_key(installed: Seq<InstalledEffect>, key: i32) -> bool {
    exists|i: int| 0 <= i < installed.len() && (#[trigger] installed[i]).key == key
}

/// The position of the effect with that raw key among the installed ones.
pub open spec fn position_of_key(installed: Seq<InstalledEffect>, key: i32) -> int {
    choose|i: int| 0 <= i < installed.len() && (#[trigger] installed[i]).key == key
}

/// The key of the effect at a position, or no key behind the last effect.
pub open spec fn key_at(installed: Seq<InstalledEffect>, i: int) -> InstalledEffectKey {
    if 0 <= i < installed.len() {
        InstalledEffectKey::Key(installed[i].key)
    } else {
        InstalledEffectKey::NoKey
    }
}

/// The key that follows a key in the order of installation: the first
/// effect after no key, no key after the last effect, and an error after a
/// key that is not installed.
pub open spec fn key_after(installed: Seq<InstalledEffect>, key: InstalledEffectKey) -> Result<
    InstalledEffectKey,
    Error,
> {
    match key {
        InstalledEffectKey::NoKey => Ok(key_at(installed, 0)),
        InstalledEffectKey::Key(raw) => if has_key(installed, raw) {
            Ok(key_at(installed, position_of_key(installed, raw) + 1))
        } else {
            Err(Error::InvalidIndex)
        },
    }
}

/// Where no two effects share a key, an effect is found at its own
/// position and nowhere else.
pub proof fn lemma_key_position_is_unique(installed: Seq<InstalledEffect>, i: int)
    requires
        keys_valid(installed),
        0 <= i < installed.len(),
    ensures
        has_key(installed, installed[i].key),
        position_of_key(installed, installed[i].key) == i,
{
    let key = installed[i].key;
    let j = position_of_key(installed, key);
    assert(0 <= j < installed.len() && installed[j].key == key);
    if j < i {
        assert(installed[j].key != installed[i].key);
    }
    if i < j {
        assert(installed[i].key != installed[j].key);
    }
}

/// The host application as a module can ask it: which suites it offers,
/// which effects are installed, which projects are open.
pub struct Application {
    effect_suite: bool,
    project_suite: bool,
    world_suite: bool,
    installed: Vec<InstalledEffect>,
    projects: Vec<String>,
}

impl Application {
    #[verifier::type_invariant]
    spec fn well_formed(&self) -> bool {
        &&& keys_valid(self.installed@)
        &&& names_fit(self.installed@)
        &&& self.installed@.len() <= i32::MAX
        &&& self.projects@.len() <= i32::MAX
    }

    /// Whether the application offers the effect suite.
    pub closed spec fn offers_effect_suite(&self) -> bool {
        self.effect_suite
    }

    /// Whether the application offers the project suite.
    pub closed spec fn offers_project_suite(&self) -> bool {
        self.project_suite
    }

    /// Whether the application offers the world suite.
    pub closed spec fn offers_world_suite(&self) -> bool {
        self.world_suite
    }

    /// The installed effects, in the order of their installation.
    pub closed spec fn installed(&self) -> Seq<InstalledEffect> {
        self.installed@
    }

    /// The paths of the open projects, in the order of their opening. A
    /// project that was never saved has the empty path.
    pub closed spec fn projects(&self) -> Seq<String> {
        self.projects@
    }

    /// An application that offers the suites as said, with no effect
    /// installed and no project open.
    pub fn new(effect_suite: bool, project_suite: bool, world_suite: bool) -> (app: Application)
        ensures
            app.offers_effect_suite() == effect_suite,
            app.offers_project_suite() == project_suite,
            app.offers_world_suite() == world_suite,
            app.installed().len() == 0,
            app.projects().len() == 0,
    {
        Application {
            effect_suite,
            project_suite,
            world_suite,
            installed: Vec::new(),
            projects: Vec::new(),
        }
    }

    /// The position of the effect with that raw key, if it is installed.
    fn find(&self, key: i32) -> (r: Option<usize>)
        ensures
            keys_valid(self.installed()),
            names_fit(self.installed()),
            self.installed().len() <= i32::MAX,
            r is Some <==> has_key(self.installed(), key),
            r matches Some(i) ==> i == position_of_key(self.installed(), key) && i
                < self.installed().len(),
    {
        proof {
            use_type_invariant(self);
        }
        let mut i: usize = 0;
        while i < self.installed.len()
            invariant
                i <= self.installed@.len() <= i32::MAX,
                keys_valid(self.installed@),
                names_fit(self.installed@),
                forall|k: int| 0 <= k < i ==> (#[trigger] self.installed@[k]).key != key,
            decreases self.installed@.len() - i,
        {
            if self.installed[i].key == key {
                proof {
                    lemma_key_position_is_unique(self.installed@, i as int);
                }
                return Some(i);
            }
            i += 1;
        }
        None
    }

    /// Installs an effect behind those that are installed.
    ///
    /// The effect is refused, and the application stays as it is, where its
    /// key stands for no effect or is taken, where one of its texts is
    /// longer than the host gives or holds a zero byte, or where the
    /// application holds as many effects as it can count.
    pub fn install_effect(&mut self, effect: InstalledEffect) -> (installed: bool)
        ensures
            installed <==> {
                &&& effect.key != INSTALLED_EFFECT_KEY_NONE
                &&& effect_fits(effect)
                &&& !has_key(old(self).installed(), effect.key)
                &&& old(self).installed().len() < i32::MAX
            },
            names_fit(final(self).installed()),
            final(self).installed() == if installed {
                old(self).installed().push(effect)
            } else {
                old(self).installed()
            },
            final(self).projects() == old(self).projects(),
            final(self).offers_effect_suite() == old(self).offers_effect_suite(),
            final(self).offers_project_suite() == old(self).offers_project_suite(),
            final(self).offers_world_suite() == old(self).offers_world_suite(),
    {
        proof {
            use_type_invariant(&*self);
        }
        if effect.key == INSTALLED_EFFECT_KEY_NONE || self.installed.len() >= i32::MAX as usize {
            return false;
        }
        if !fits(effect.name.as_str()) || !fits(effect.match_name.as_str()) || !fits(
            effect.category.as_str(),
        ) {
            return false;
        }
        if self.find(effect.key).is_some() {
            return false;
        }
        let mut installed: Vec<InstalledEffect> = Vec::new();
        std::mem::swap(&mut self.installed, &mut installed);
        installed.push(effect);
        proof {
            let before = old(self).installed@;
            let after = installed@;
            assert forall|i: int, j: int| 0 <= i < j < after.len() implies (#[trigger] after[i]).key
                != (#[trigger] after[j]).key by {
                if j == before.len() {
                    assert(before[i].key != effect.key);
                } else {
                    assert(before[i].key != before[j].key);
                }
            }
            assert forall|i: int| 0 <= i < after.len() implies (#[trigger] after[i]).key
                != INSTALLED_EFFECT_KEY_NONE by {
                if i < before.len() {
                    assert(before[i].key != INSTALLED_EFFECT_KEY_NONE);
                }
            }
            assert forall|i: int| 0 <= i < after.len() implies effect_fits(
                #[trigger] after[i],
            ) by {
                if i < before.len() {
                    assert(effect_fits(before[i]));
                }
            }
        }
        std::mem::swap(&mut self.installed, &mut installed);
        true
    }

    /// Opens a project with that path behind those that are open. It is
    /// refused where the application holds as many projects as it can
    /// count.
    pub fn open_project(&mut self, path: String) -> (opened: bool)
        ensures
            opened <==> old(self).projects().len() < i32::MAX,
            final(self).projects() == if opened {
                old(self).projects().push(path)
            } else {
                old(self).projects()
            },
            final(self).installed() == old(self).installed(),
            final(self).offers_effect_suite() == old(self).offers_effect_suite(),
            final(self).offers_project_suite() == old(self).offers_project_suite(),
            final(self).offers_world_suite() == old(self).offers_world_suite(),
    {
        proof {
            use_type_invariant(&*self);
        }
        if self.projects.len() >= i32::MAX as usize {
            return false;
        }
        let mut projects: Vec<String> = Vec::new();
        std::mem::swap(&mut self.projects, &mut projects);
        projects.push(path);
        std::mem::swap(&mut self.projects, &mut projects);
        true
    }
}

/// The suite that knows the effects installed in the application.
pub struct EffectSuite<'a> {
    app: &'a Application,
}

/// The suite that knows the open projects.
pub struct ProjectSuite<'a> {
    app: &'a Application,
}

/// The suite that knows about pixel worlds.
pub struct WorldSuite2<'a> {
    app: &'a Application,
}

/// A project that is open in the application, by its position.
#[derive(Clone, Copy, Debug, PartialEq, Eq, Structural)]
pub struct ProjectHandle {
    pub index: i32,
}

/// What a suite says of an installed effect: the text that `pick` takes
/// from the effect with that key, or an error for no key and for a key
/// that is not installed. The text is one that the host can give: at most
/// [`MAX_EFFECT_NAME_SIZE`] bytes, none of them zero.
pub open spec fn told_of(
    installed: Seq<InstalledEffect>,
    key: InstalledEffectKey,
    pick: spec_fn(InstalledEffect) -> String,
) -> Result<String, Error> {
    match key {
        InstalledEffectKey::NoKey => Err(Error::InvalidIndex),
        InstalledEffectKey::Key(raw) => if has_key(installed, raw) {
            Ok(pick(installed[position_of_key(installed, raw)]))
        } else {
            Err(Error::InvalidIndex)
        },
    }
}

impl<'a> EffectSuite<'a> {
    /// The application that the suite answers from.
    pub closed spec fn app(&self) -> &'a Application {
        self.app
    }

    /// Acquires the suite from the application. Fails with
    /// [`Error::MissingSuite`] where the application does not offer it.
    pub fn new(app: &'a Application) -> (r: Result<EffectSuite<'a>, Error>)
        ensures
            app.offers_effect_suite() ==> (r matches Ok(suite) && suite.app() == app),
            !app.offers_effect_suite() ==> (r matches Err(e) && e == Error::MissingSuite),
    {
        if app.effect_suite {
            Ok(EffectSuite { app })
        } else {
            Err(Error::MissingSuite)
        }
    }

    /// How many effects are installed.
    pub fn num_installed_effects(&self) -> (r: Result<i32, Error>)
        ensures
            r == Ok::<i32, Error>(self.app().installed().len() as i32),
            self.app().installed().len() <= i32::MAX,
    {
        proof {
            use_type_invariant(self.app);
        }
        Ok(self.app.installed.len() as i32)
    }

    /// The key of the installed effect that follows `installed_effect_key`.
    ///
    /// After no key comes the first effect, after the last effect comes no
    /// key. A key that is not installed gives [`Error::InvalidIndex`].
    pub fn next_installed_effect(&self, installed_effect_key: InstalledEffectKey) -> (r: Result<
        InstalledEffectKey,
        Error,
    >)
        ensures
            r == key_after(self.app().installed(), installed_effect_key),
    {
        let after = match installed_effect_key {
            InstalledEffectKey::NoKey => 0,
            InstalledEffectKey::Key(raw) => match self.app.find(raw) {
                Some(i) => i + 1,
                None => {
                    return Err(Error::InvalidIndex);
                },
            },
        };
        if after < self.app.installed.len() {
            Ok(InstalledEffectKey::Key(self.app.installed[after].key))
        } else {
            Ok(InstalledEffectKey::NoKey)
        }
    }

    /// The name of an installed effect.
    pub fn effect_name(&self, installed_effect_key: InstalledEffectKey) -> (r: Result<String, Error>)
        ensures
            r == told_of(
                self.app().installed(),
                installed_effect_key,
                |effect: InstalledEffect| effect.name,
            ),
            r matches Ok(text) ==> name_fits(text),
    {
        match installed_effect_key {
            InstalledEffectKey::NoKey => Err(Error::InvalidIndex),
            InstalledEffectKey::Key(raw) => match self.app.find(raw) {
                Some(i) => Ok(self.app.installed[i].name.clone()),
                None => Err(Error::InvalidIndex),
            },
        }
    }

    /// The match name of an installed effect.
    pub fn effect_match_name(&self, installed_effect_key: InstalledEffectKey) -> (r: Result<
        String,
        Error,
    >)
        ensures
            r == told_of(
                self.app().installed(),
                installed_effect_key,
                |effect: InstalledEffect| effect.match_name,
            ),
            r matches Ok(text) ==> name_fits(text),
    {
        match installed_effect_key {
            InstalledEffectKey::NoKey => Err(Error::InvalidIndex),
            InstalledEffectKey::Key(raw) => match self.app.find(raw) {
                Some(i) => Ok(self.app.installed[i].match_name.clone()),
                None => Err(Error::InvalidIndex),
            },
        }
    }

    /// The menu category of an installed effect.
    pub fn effect_category(&self, installed_effect_key: InstalledEffectKey) -> (r: Result<
        String,
        Error,
    >)
        ensures
            r == told_of(
                self.app().installed(),
                installed_effect_key,
                |effect: InstalledEffect| effect.category,
            ),
            r matches Ok(text) ==> name_fits(text),
    {
        match installed_effect_key {
            InstalledEffectKey::NoKey => Err(Error::InvalidIndex),
            InstalledEffectKey::Key(raw) => match self.app.find(raw) {
                Some(i) => Ok(self.app.installed[i].category.clone()),
                None => Err(Error::InvalidIndex),
            },
        }
    }
}

/// What is answered where a suite must be acquired first: the error of the
/// acquisition where the application does not offer the suite, else what
/// the suite answers.
pub open spec fn through_suite<T>(offered: bool, answer: Result<T, Error>) -> Result<T, Error> {
    if offered {
        answer
    } else {
        Err(Error::MissingSuite)
    }
}

/// An effect that is applied to a layer.
#[derive(Clone, Copy, Debug, PartialEq, Eq, Structural)]
pub struct Effect {
    /// The installed effect that this one is an application of.
    pub installed_key: InstalledEffectKey,
}

impl Effect {
    /// How many effects are installed in the application.
    pub fn num_installed_effects(app: &Application) -> (r: Result<i32, Error>)
        ensures
            r == through_suite(
                app.offers_effect_suite(),
                Ok::<i32, Error>(app.installed().len() as i32),
            ),
    {
        match EffectSuite::new(app) {
            Ok(suite) => suite.num_installed_effects(),
            Err(e) => Err(e),
        }
    }

    /// The key of the installed effect that follows `installed_effect_key`;
    /// see [`EffectSuite::next_installed_effect`].
    pub fn next_installed_effect(app: &Application, installed_effect_key: InstalledEffectKey) -> (r:
        Result<InstalledEffectKey, Error>)
        ensures
            r == through_suite(
                app.offers_effect_suite(),
                key_after(app.installed(), installed_effect_key),
            ),
    {
        match EffectSuite::new(app) {
            Ok(suite) => suite.next_installed_effect(installed_effect_key),
            Err(e) => Err(e),
        }
    }

    /// The name of an installed effect.
    pub fn name_of(app: &Application, installed_effect_key: InstalledEffectKey) -> (r: Result<
        String,
        Error,
    >)
        ensures
            r == through_suite(
                app.offers_effect_suite(),
                told_of(
                    app.installed(),
                    installed_effect_key,
                    |effect: InstalledEffect| effect.name,
                ),
            ),
            r matches Ok(text) ==> name_fits(text),
    {
        match EffectSuite::new(app) {
            Ok(suite) => suite.effect_name(installed_effect_key),
            Err(e) => Err(e),
        }
    }

    /// The match name of an installed effect.
    pub fn match_name_of(app: &Application, installed_effect_key: InstalledEffectKey) -> (r: Result<
        String,
        Error,
    >)
        ensures
            r == through_suite(
                app.offers_effect_suite(),
                told_of(
                    app.installed(),
                    installed_effect_key,
                    |effect: InstalledEffect| effect.match_name,
                ),
            ),
            r matches Ok(text) ==> name_fits(text),
    {
        match EffectSuite::new(app) {
            Ok(suite) => suite.effect_match_name(installed_effect_key),
            Err(e) => Err(e),
        }
    }

    /// The menu category of an installed effect.
    pub fn category_of(app: &Application, installed_effect_key: InstalledEffectKey) -> (r: Result<
        String,
        Error,
    >)
        ensures
            r == through_suite(
                app.offers_effect_suite(),
                told_of(
                    app.installed(),
                    installed_effect_key,
                    |effect: InstalledEffect| effect.category,
                ),
            ),
            r matches Ok(text) ==> name_fits(text),
    {
        match EffectSuite::new(app) {
            Ok(suite) => suite.effect_category(installed_effect_key),
            Err(e) => Err(e),
        }
    }
}

/// The path of the project that a handle refers to, or an error for a
/// handle that refers to none.
pub open spec fn path_of(projects: Seq<String>, handle: ProjectHandle) -> Result<String, Error> {
    if 0 <= handle.index < projects.len() {
        Ok(projects[handle.index as int])
    } else {
        Err(Error::InvalidIndex)
    }
}

impl<'a> ProjectSuite<'a> {
    /// The application that the suite answers from.
    pub closed spec fn app(&self) -> &'a Application {
        self.app
    }

    /// Acquires the suite from the application. Fails with
    /// [`Error::MissingSuite`] where the application does not offer it.
    pub fn new(app: &'a Application) -> (r: Result<ProjectSuite<'a>, Error>)
        ensures
            app.offers_project_suite() ==> (r matches Ok(suite) && suite.app() == app),
            !app.offers_project_suite() ==> (r matches Err(e) && e == Error::MissingSuite),
    {
        if app.project_suite {
            Ok(ProjectSuite { app })
        } else {
            Err(Error::MissingSuite)
        }
    }

    /// How many projects are open.
    pub fn get_num_projects(&self) -> (r: Result<i32, Error>)
        ensures
            r == Ok::<i32, Error>(self.app().projects().len() as i32),
            self.app().projects().len() <= i32::MAX,
    {
        proof {
            use_type_invariant(self.app);
        }
        Ok(self.app.projects.len() as i32)
    }

    /// The open project at a position, or [`Error::InvalidIndex`] where no
    /// project is open there.
    pub fn get_project_by_index(&self, proj_index: i32) -> (r: Result<ProjectHandle, Error>)
        ensures
            0 <= proj_index < self.app().projects().len() ==> r == Ok::<ProjectHandle, Error>(
                ProjectHandle { index: proj_index },
            ),
            !(0 <= proj_index < self.app().projects().len()) ==> r == Err::<ProjectHandle, Error>(
                Error::InvalidIndex,
            ),
    {
        if proj_index >= 0 && (proj_index as usize) < self.app.projects.len() {
            Ok(ProjectHandle { index: proj_index })
        } else {
            Err(Error::InvalidIndex)
        }
    }

    /// The path of an open project, empty where the project was never
    /// saved, or [`Error::InvalidIndex`] for a handle that refers to none.
    pub fn get_project_path(&self, proj_handle: ProjectHandle) -> (r: Result<String, Error>)
        ensures
            r == path_of(self.app().projects(), proj_handle),
    {
        if proj_handle.index >= 0 && (proj_handle.index as usize) < self.app.projects.len() {
            Ok(self.app.projects[proj_handle.index as usize].clone())
        } else {
            Err(Error::InvalidIndex)
        }
    }
}

impl<'a> WorldSuite2<'a> {
    /// The application that the suite answers from.
    pub closed spec fn app(&self) -> &'a Application {
        self.app
    }

    /// Acquires the suite from the application. Fails with
    /// [`Error::MissingSuite`] where the application does not offer it.
    pub fn new(app: &'a Application) -> (r: Result<WorldSuite2<'a>, Error>)
        ensures
            app.offers_world_suite() ==> (r matches Ok(suite) && suite.app() == app),
            !app.offers_world_suite() ==> (r matches Err(e) && e == Error::MissingSuite),
    {
        if app.world_suite {
            Ok(WorldSuite2 { app })
        } else {
            Err(Error::MissingSuite)
        }
    }
}

/// The kinds of parameter that an effect can describe to a module.
#[derive(Clone, Copy, Debug, PartialEq, Eq, Structural)]
pub enum ParamKind {
    Angle,
    Arbitrary,
    Button,
    CheckBox,
    Color,
    FloatSlider,
    Popup,
    Slider,
    Point,
    Point3D,
    Path,
}

impl ParamKind {
    /// The kind that a tag of the host names. The host has more tags than
    /// these; the others name kinds that an effect does not describe.
    pub open spec fn of_tag(tag: i32) -> Option<ParamKind> {
        if tag == 1 {
            Some(ParamKind::Slider)
        } else if tag == 3 {
            Some(ParamKind::Angle)
        } else if tag == 4 {
            Some(ParamKind::CheckBox)
        } else if tag == 5 {
            Some(ParamKind::Color)
        } else if tag == 6 {
            Some(ParamKind::Point)
        } else if tag == 7 {
            Some(ParamKind::Popup)
        } else if tag == 10 {
            Some(ParamKind::FloatSlider)
        } else if tag == 11 {
            Some(ParamKind::Arbitrary)
        } else if tag == 12 {
            Some(ParamKind::Path)
        } else if tag == 15 {
            Some(ParamKind::Button)
        } else if tag == 18 {
            Some(ParamKind::Point3D)
        } else {
            None
        }
    }

    /// Reads the tag by which the host says of what kind a parameter is. A
    /// tag that names none of the kinds gives [`Error::InvalidParms`].
    pub fn from_tag(tag: i32) -> (r: Result<ParamKind, Error>)
        ensures
            match ParamKind::of_tag(tag) {
                Some(kind) => r == Ok::<ParamKind, Error>(kind),
                None => r == Err::<ParamKind, Error>(Error::InvalidParms),
            },
    {
        match tag {
            1 => Ok(ParamKind::Slider),
            3 => Ok(ParamKind::Angle),
            4 => Ok(ParamKind::CheckBox),
            5 => Ok(ParamKind::Color),
            6 => Ok(ParamKind::Point),
            7 => Ok(ParamKind::Popup),
            10 => Ok(ParamKind::FloatSlider),
            11 => Ok(ParamKind::Arbitrary),
            12 => Ok(ParamKind::Path),
            15 => Ok(ParamKind::Button),
            18 => Ok(ParamKind::Point3D),
            _ => Err(Error::InvalidParms),
        }
    }
}

/// The flag of an effect that is switched on.
pub const EFFECT_FLAG_ACTIVE: i32 = 1;

/// The flag of an effect that works on audio only.
pub const EFFECT_FLAG_AUDIO_ONLY: i32 = 2;

/// The flag of an effect that works on audio too.
pub const EFFECT_FLAG_AUDIO_TOO: i32 = 4;

/// The flag of an effect whose module is not installed.
pub const EFFECT_FLAG_MISSING: i32 = 8;

/// All flags of an effect that this layer knows.
pub const EFFECT_FLAGS_ALL: i32 = 15;

/// The flags of an applied effect: any of the known flags, and no other
/// bit.
#[derive(Clone, Copy, Debug, PartialEq, Eq, Structural)]
pub struct EffectFlags {
    bits: i32,
}

impl EffectFlags {
    /// The flags as bits.
    pub closed spec fn bits_of(self) -> i32 {
        self.bits
    }

    /// Reads the flags that the host gave and drops every bit that is no
    /// known flag.
    pub fn from_bits_truncate(raw: i32) -> (flags: EffectFlags)
        ensures
            flags.bits_of() == raw & EFFECT_FLAGS_ALL,
            0 <= flags.bits_of() <= EFFECT_FLAGS_ALL,
    {
        assert(0 <= raw & 15 <= 15) by (bit_vector);
        EffectFlags { bits: raw & EFFECT_FLAGS_ALL }
    }

    /// The flags as the host reads them.
    pub fn bits(&self) -> (raw: i32)
        ensures
            raw == self.bits_of(),
    {
        self.bits
    }

    /// Whether every flag in `flags` is set.
    pub fn contains(&self, flags: i32) -> (b: bool)
        ensures
            b == (self.bits_of() & flags == flags),
    {
        self.bits & flags == flags
    }
}

/// Reading flags twice drops nothing more than reading them once, and
/// what was read is written as it was read.
pub proof fn lemma_effect_flags_are_masked_once(raw: i32)
    ensures
        (raw & EFFECT_FLAGS_ALL) & EFFECT_FLAGS_ALL == raw & EFFECT_FLAGS_ALL,
{
    assert((raw & 15) & 15 == raw & 15) by (bit_vector);
}

} // verus!
