//! Decisions of the folder use cases. As for users, each use case is an
//! exchange with the folder repository: a step names the next call, and
//! its answer goes to the next step. Every call is scoped to the user who
//! asks; that user's id comes from the access token, never from a body.

use vstd::prelude::*;
use vstd::string::*;

use crate::folders::domain::{DomainError, Folder};
use crate::shared::ids::now_micros;
use crate::shared::pagination::{normalized_page, normalized_page_size, Pagination};
use crate::shared::text::{all_white_space, lemma_trim_ignores_padding, trim, trimmed_utf8_len_at_least, utf8_len};

verus! {

/// Minimum length (UTF-8 bytes, surrounding whitespace aside) of a name.
pub const MIN_NAME_LEN: u8 = 3;

/// A folder name is valid when, trimmed, it has at least `MIN_NAME_LEN` bytes.
pub open spec fn valid_folder_name(s: Seq<char>) -> bool {
    utf8_len(trim(s)) >= MIN_NAME_LEN
}

pub open spec fn name_rule_text() -> Seq<char> {
    "El name debe tener al menos 3 caracteres"@
}

pub open spec fn nil_user_text() -> Seq<char> {
    "El ID de usuario no puede ser nulo"@
}

/// The conflict message for a name the user already gave another folder.
pub open spec fn name_taken_text(name: Seq<char>) -> Seq<char> {
    "Ya existe un/a folder con el name '"@ + name + "'"@
}

/// The name rule in full: a folder name is accepted exactly when, once
/// trimmed, it takes at least 3 bytes in UTF-8; so a name of only
/// whitespace is always refused.
pub proof fn lemma_folder_name_rule(s: Seq<char>)
    ensures
        valid_folder_name(s) <==> utf8_len(trim(s)) >= 3,
        trim(s).len() == 0 ==> !valid_folder_name(s),
{
    if trim(s).len() == 0 {
        assert(trim(s) =~= Seq::<char>::empty());
        assert(utf8_len(Seq::<char>::empty()) == 0);
    }
}

/// Folder names are judged without the whitespace around them.
pub proof fn lemma_name_rule_ignores_padding(w1: Seq<char>, s: Seq<char>, w2: Seq<char>)
    requires
        all_white_space(w1),
        all_white_space(w2),
    ensures
        valid_folder_name(w1 + s + w2) == valid_folder_name(s),
{
    lemma_trim_ignores_padding(w1, s, w2);
}

/// A creation whose input passed validation, waiting for the answer to
/// "does this user already have a folder with this name?".
pub struct FolderCreation {
    user_id: u128,
    name: String,
}

/// Where a creation stands.
pub enum FolderCreateStep {
    /// Look up the folder of this user with this name and hand the answer
    /// to `FolderCreation::after_name_lookup`.
    LookupName(FolderCreation, u128, String),
    /// Store this folder; the repository's answer is the outcome.
    Create(Folder),
    /// The creation ended with this outcome.
    Done(Result<Folder, DomainError>),
}

/// A rename waiting for the folder it changes.
pub struct FolderUpdate {
    user_id: u128,
    id: u128,
    name: Option<String>,
}

/// A rename whose new name waits for the answer to "which folder of this
/// user has this name?".
pub struct PendingRename {
    user_id: u128,
    folder: Folder,
    name: String,
}

/// Where an update stands.
pub enum FolderUpdateStep {
    /// Look up the folder of this user with this name and hand the answer
    /// to `PendingRename::after_name_lookup`.
    LookupName(PendingRename, u128, String),
    /// Save this folder for this user; the repository's answer is the outcome.
    Save(u128, Folder),
    /// The update ended with this outcome.
    Done(Result<Folder, DomainError>),
}

/// Decisions of the folder use cases.
pub struct FolderService;

impl FolderService {
    /// Checks a folder name: at least `MIN_NAME_LEN` bytes once trimmed.
    pub fn validate_name(name: &str) -> (r: Result<(), DomainError>)
        ensures
            r is Ok <==> valid_folder_name(name@),
            r matches Err(e) ==> (e matches DomainError::Validation(m) && m@ == name_rule_text()),
    {
        if !trimmed_utf8_len_at_least(name, MIN_NAME_LEN) {
            return Err(DomainError::Validation(String::from_str("El name debe tener al menos 3 caracteres")));
        }
        Ok(())
    }

    /// Checks the owner's id: the nil UUID is not a user.
    pub fn validate_user_id(user_id: &u128) -> (r: Result<(), DomainError>)
        ensures
            r is Ok <==> *user_id != 0,
            r matches Err(e) ==> (e matches DomainError::Validation(m) && m@ == nil_user_text()),
    {
        if *user_id == 0 {
            return Err(DomainError::Validation(String::from_str("El ID de usuario no puede ser nulo")));
        }
        Ok(())
    }

    /// Starts a creation: validates the name, then the owner, then asks
    /// whether the owner already has a folder with that name.
    pub fn create_folder(user_id: u128, name: String) -> (r: FolderCreateStep)
        ensures
            !valid_folder_name(name@) ==> (r matches FolderCreateStep::Done(Err(DomainError::Validation(m)))
                && m@ == name_rule_text()),
            valid_folder_name(name@) && user_id == 0 ==> (r matches FolderCreateStep::Done(
                Err(DomainError::Validation(m))) && m@ == nil_user_text()),
            valid_folder_name(name@) && user_id != 0 ==> (r matches FolderCreateStep::LookupName(c, owner, looked_up)
                && {
                &&& owner == user_id
                &&& looked_up@ == name@
                &&& c.user_id_spec() == user_id
                &&& c.name_spec() == name@
            }),
    {
        if let Err(e) = Self::validate_name(name.as_str()) {
            return FolderCreateStep::Done(Err(e));
        }
        if let Err(e) = Self::validate_user_id(&user_id) {
            return FolderCreateStep::Done(Err(e));
        }
        let looked_up = name.clone();
        FolderCreateStep::LookupName(FolderCreation { user_id, name }, user_id, looked_up)
    }

    /// The folder a lookup by id found, or `NotFound`.
    pub fn found_or_not_found(found: Result<Option<Folder>, DomainError>) -> (r: Result<Folder, DomainError>)
        ensures
            found matches Err(e) ==> r == Err::<Folder, DomainError>(e),
            found matches Ok(Some(f)) ==> r == Ok::<Folder, DomainError>(f),
            found matches Ok(None) ==> r == Err::<Folder, DomainError>(DomainError::NotFound),
    {
        match found {
            Err(e) => Err(e),
            Ok(Some(f)) => Ok(f),
            Ok(None) => Err(DomainError::NotFound),
        }
    }

    /// Starts a listing of the folders of `user_id`: the owner and the
    /// page to fetch, with defaults and limits applied.
    pub fn get_all_folders(user_id: u128, page: Option<i64>, page_size: Option<i64>) -> (r: (u128, Pagination))
        ensures
            r.0 == user_id,
            r.1.page_spec() == normalized_page(page),
            r.1.page_size_spec() == normalized_page_size(page_size),
    {
        (user_id, Pagination::new(page, page_size))
    }

    /// Starts an update of the folder `id` of `user_id`: the folder is
    /// looked up first.
    pub fn update_folder(user_id: u128, id: u128, name: Option<String>) -> (r: FolderUpdate)
        ensures
            r.user_id_spec() == user_id,
            r.id_spec() == id,
            r.name_spec() == name,
    {
        FolderUpdate { user_id, id, name }
    }

    /// After looking up the folder to delete: the owner and id to delete,
    /// or why not.
    pub fn confirm_delete(user_id: u128, id: u128, found: Result<Option<Folder>, DomainError>) -> (r: Result<(u128, u128), DomainError>)
        ensures
            found matches Err(e) ==> r == Err::<(u128, u128), DomainError>(e),
            found matches Ok(Some(_)) ==> r == Ok::<(u128, u128), DomainError>((user_id, id)),
            found matches Ok(None) ==> r == Err::<(u128, u128), DomainError>(DomainError::NotFound),
    {
        match found {
            Err(e) => Err(e),
            Ok(Some(_)) => Ok((user_id, id)),
            Ok(None) => Err(DomainError::NotFound),
        }
    }
}

impl FolderCreation {
    pub closed spec fn user_id_spec(self) -> u128 {
        self.user_id
    }

    pub closed spec fn name_spec(self) -> Seq<char> {
        self.name@
    }

    /// After looking up the name: a taken name is a conflict; a free one
    /// gets a new folder of the user, to be stored.
    pub fn after_name_lookup(self, found: Result<Option<Folder>, DomainError>) -> (r: FolderCreateStep)
        ensures
            found matches Err(e) ==> r == FolderCreateStep::Done(Err(e)),
            found matches Ok(Some(_)) ==> (r matches FolderCreateStep::Done(Err(DomainError::Conflict(m)))
                && m@ == name_taken_text(self.name_spec())),
            found matches Ok(None) ==> (r matches FolderCreateStep::Create(f) && {
                &&& f.user_id == self.user_id_spec()
                &&& f.name@ == self.name_spec()
                &&& f.created_at == f.updated_at
            }),
    {
        match found {
            Err(e) => FolderCreateStep::Done(Err(e)),
            Ok(Some(_)) => {
                let msg = String::from_str("Ya existe un/a folder con el name '").concat(self.name.as_str()).concat("'");
                FolderCreateStep::Done(Err(DomainError::Conflict(msg)))
            },
            Ok(None) => FolderCreateStep::Create(Folder::new(self.user_id, self.name)),
        }
    }
}

impl FolderUpdate {
    pub closed spec fn user_id_spec(self) -> u128 {
        self.user_id
    }

    pub closed spec fn id_spec(self) -> u128 {
        self.id
    }

    pub closed spec fn name_spec(self) -> Option<String> {
        self.name
    }

    /// The owner and id of the folder to look up.
    pub fn target(&self) -> (r: (u128, u128))
        ensures
            r == (self.user_id_spec(), self.id_spec()),
    {
        (self.user_id, self.id)
    }

    /// After looking up the folder: a new name is checked and then looked
    /// up among the user's folders; without one the folder is saved with a
    /// new update time.
    pub fn after_lookup(self, found: Result<Option<Folder>, DomainError>) -> (r: FolderUpdateStep)
        ensures
            found matches Err(e) ==> r == FolderUpdateStep::Done(Err(e)),
            found matches Ok(None) ==> r == FolderUpdateStep::Done(Err(DomainError::NotFound)),
            found matches Ok(Some(folder)) ==> {
                &&& self.name_spec() is None ==> (r matches FolderUpdateStep::Save(owner, saved) && owner
                    == self.user_id_spec() && saved == (Folder { updated_at: saved.updated_at, ..folder }))
                &&& self.name_spec() is Some && !valid_folder_name(self.name_spec()->0@)
                    ==> (r matches FolderUpdateStep::Done(Err(DomainError::Validation(m))) && m@ == name_rule_text())
                &&& self.name_spec() is Some && valid_folder_name(self.name_spec()->0@)
                    ==> (r matches FolderUpdateStep::LookupName(pending, owner, looked_up) && {
                        &&& owner == self.user_id_spec()
                        &&& looked_up@ == self.name_spec()->0@
                        &&& pending.user_id_spec() == self.user_id_spec()
                        &&& pending.folder_spec() == folder
                        &&& pending.name_spec() == self.name_spec()->0@
                    })
            },
    {
        match found {
            Err(e) => FolderUpdateStep::Done(Err(e)),
            Ok(None) => FolderUpdateStep::Done(Err(DomainError::NotFound)),
            Ok(Some(folder)) => {
                match self.name {
                    Some(new_name) => {
                        if let Err(e) = FolderService::validate_name(new_name.as_str()) {
                            return FolderUpdateStep::Done(Err(e));
                        }
                        let looked_up = new_name.clone();
                        FolderUpdateStep::LookupName(
                            PendingRename { user_id: self.user_id, folder, name: new_name },
                            self.user_id,
                            looked_up,
                        )
                    },
                    None => {
                        let mut folder = folder;
                        folder.updated_at = now_micros();
                        FolderUpdateStep::Save(self.user_id, folder)
                    },
                }
            },
        }
    }
}

impl PendingRename {
    pub closed spec fn user_id_spec(self) -> u128 {
        self.user_id
    }

    pub closed spec fn folder_spec(self) -> Folder {
        self.folder
    }

    pub closed spec fn name_spec(self) -> Seq<char> {
        self.name@
    }

    /// After looking up the new name: if another folder of the user has
    /// it, the rename is a conflict; otherwise the folder is renamed and
    /// saved.
    pub fn after_name_lookup(self, found: Result<Option<Folder>, DomainError>) -> (r: FolderUpdateStep)
        ensures
            found matches Err(e) ==> r == FolderUpdateStep::Done(Err(e)),
            found matches Ok(Some(other)) && other.id != self.folder_spec().id
                ==> (r matches FolderUpdateStep::Done(Err(DomainError::Conflict(m)))
                && m@ == name_taken_text(self.name_spec())),
            found is Ok && (found->Ok_0 is None || found->Ok_0->0.id == self.folder_spec().id)
                ==> (r matches FolderUpdateStep::Save(owner, saved) && {
                    &&& owner == self.user_id_spec()
                    &&& saved.id == self.folder_spec().id
                    &&& saved.user_id == self.folder_spec().user_id
                    &&& saved.name@ == self.name_spec()
                    &&& saved.created_at == self.folder_spec().created_at
                }),
    {
        match found {
            Err(e) => FolderUpdateStep::Done(Err(e)),
            Ok(existing) => {
                if let Some(other) = existing {
                    if other.id != self.folder.id {
                        let msg = String::from_str("Ya existe un/a folder con el name '").concat(self.name.as_str()).concat("'");
                        return FolderUpdateStep::Done(Err(DomainError::Conflict(msg)));
                    }
                }
                let mut folder = self.folder;
                folder.name = self.name;
                folder.updated_at = now_micros();
                FolderUpdateStep::Save(self.user_id, folder)
            },
        }
    }
}

} // verus!
