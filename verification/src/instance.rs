//! The instance lifecycle: application metadata, the validity rule its
//! names must obey (the API takes them as C strings, so no interior NUL),
//! and a handle that is created alive and destroyed exactly once.

use vstd::prelude::*;
use vstd::string::StrSliceExecFns;

verus! {

/// A name handed to the API is valid when no character is NUL: it must
/// survive conversion to a C string unchanged.
pub open spec fn valid_name(s: Seq<char>) -> bool {
    forall|i: int| 0 <= i < s.len() ==> s[i] != '\0'
}

/// The application metadata an instance is created with.
#[derive(Debug)]
pub struct ApplicationInfo {
    pub application_name: String,
    pub application_version: u32,
    pub engine_name: String,
    pub engine_version: u32,
    pub api_version: u32,
}

/// Metadata is valid when both of its names are.
pub open spec fn valid_application_info(info: ApplicationInfo) -> bool {
    valid_name(info.application_name@) && valid_name(info.engine_name@)
}

/// The views of a list of names.
pub open spec fn views_of_names(names: Seq<String>) -> Seq<Seq<char>> {
    names.map_values(|s: String| s@)
}

/// Every name in an extension list is valid.
pub open spec fn all_extension_names_valid(exts: Seq<Seq<char>>) -> bool {
    forall|i: int| 0 <= i < exts.len() ==> valid_name(#[trigger] exts[i])
}

/// Why instance creation was refused: the first name found to contain NUL.
#[derive(Clone, Copy, PartialEq, Eq, Structural, Debug)]
pub enum InstanceError {
    NulInApplicationName,
    NulInEngineName,
    NulInExtensionName,
}

/// Decide whether a name is valid, scanning it for a NUL character.
pub fn name_is_valid(name: &str) -> (r: bool)
    ensures
        r == valid_name(name@),
{
    let len = name.unicode_len();
    let mut i: usize = 0;
    while i < len
        invariant
            i <= len,
            len == name@.len(),
            forall|j: int| 0 <= j < i ==> name@[j] != '\0',
        decreases len - i,
    {
        if name.get_char(i) == '\0' {
            return false;
        }
        i += 1;
    }
    true
}

/// A live handle to the graphics-API context, recording the metadata and
/// extension list it was created with. It starts alive and stays alive
/// until `destroy` runs, which may happen only once.
#[derive(Debug)]
pub struct Instance {
    info: ApplicationInfo,
    extension_names: Vec<String>,
    alive: bool,
}

impl Instance {
    /// Whether the handle has not been destroyed yet.
    pub closed spec fn alive(self) -> bool {
        self.alive
    }

    /// The metadata the handle was created with.
    pub closed spec fn app_info(self) -> ApplicationInfo {
        self.info
    }

    /// The extension names the handle was created with.
    pub closed spec fn extensions(self) -> Seq<Seq<char>> {
        views_of_names(self.extension_names@)
    }

    /// Create an instance from metadata and an extension list. Creation
    /// succeeds exactly when every name is free of NUL; otherwise it
    /// reports the first offending name, checking the application name,
    /// then the engine name, then the extension list.
    pub fn create(info: ApplicationInfo, extension_names: Vec<String>) -> (r: Result<
        Instance,
        InstanceError,
    >)
        ensures
            r is Ok <==> valid_application_info(info) && all_extension_names_valid(
                views_of_names(extension_names@),
            ),
            r matches Ok(inst) ==> inst.alive() && inst.app_info() == info && inst.extensions()
                == views_of_names(extension_names@),
            r matches Err(e) ==> (match e {
                InstanceError::NulInApplicationName => !valid_name(info.application_name@),
                InstanceError::NulInEngineName => valid_name(info.application_name@)
                    && !valid_name(info.engine_name@),
                InstanceError::NulInExtensionName => valid_application_info(info)
                    && !all_extension_names_valid(views_of_names(extension_names@)),
            }),
    {
        if !name_is_valid(info.application_name.as_str()) {
            return Err(InstanceError::NulInApplicationName);
        }
        if !name_is_valid(info.engine_name.as_str()) {
            return Err(InstanceError::NulInEngineName);
        }
        let ghost exts: Seq<Seq<char>> = views_of_names(extension_names@);
        let mut i: usize = 0;
        while i < extension_names.len()
            invariant
                i <= extension_names.len(),
                valid_application_info(info),
                exts == views_of_names(extension_names@),
                forall|j: int| 0 <= j < i ==> valid_name(#[trigger] exts[j]),
            decreases extension_names.len() - i,
        {
            if !name_is_valid(extension_names[i].as_str()) {
                assert(!valid_name(exts[i as int]));
                return Err(InstanceError::NulInExtensionName);
            }
            i += 1;
        }
        Ok(Instance { info, extension_names, alive: true })
    }

    /// Destroy the instance. The handle must still be alive, and is not
    /// afterwards; the recorded metadata is untouched. Ownership of the
    /// aliveness condition makes a second destruction a contract violation.
    pub fn destroy(&mut self)
        requires
            old(self).alive(),
        ensures
            !final (self).alive(),
            final (self).app_info() == old(self).app_info(),
            final (self).extensions() == old(self).extensions(),
    {
        self.alive = false;
    }

    /// Whether the handle is still alive, as an executable query.
    pub fn is_alive(&self) -> (r: bool)
        ensures
            r == self.alive(),
    {
        self.alive
    }

    /// The application name the handle was created with.
    pub fn application_name(&self) -> (r: &String)
        ensures
            r@ == self.app_info().application_name@,
    {
        &self.info.application_name
    }

    /// The engine name the handle was created with.
    pub fn engine_name(&self) -> (r: &String)
        ensures
            r@ == self.app_info().engine_name@,
    {
        &self.info.engine_name
    }

    /// The application version the handle was created with.
    pub fn application_version(&self) -> (r: u32)
        ensures
            r == self.app_info().application_version,
    {
        self.info.application_version
    }

    /// The engine version the handle was created with.
    pub fn engine_version(&self) -> (r: u32)
        ensures
            r == self.app_info().engine_version,
    {
        self.info.engine_version
    }

    /// The API version the handle was created with.
    pub fn api_version(&self) -> (r: u32)
        ensures
            r == self.app_info().api_version,
    {
        self.info.api_version
    }

    /// The extension names the handle was created with, as strings.
    pub fn extension_names(&self) -> (r: &Vec<String>)
        ensures
            views_of_names(r@) == self.extensions(),
    {
        &self.extension_names
    }
}

} // verus!
