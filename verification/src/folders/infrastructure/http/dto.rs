//! Request and response shapes of the folders HTTP adapter.

use vstd::prelude::*;

use crate::folders::domain::Folder;
use crate::shared::pagination::PaginatedResult;

verus! {

/// Body of `POST /api/v1/folders`.
pub struct CreateFolderRequest {
    pub name: String,
}

/// Body of `PUT /api/v1/folders/:id`.
pub struct UpdateFolderRequest {
    pub name: Option<String>,
}

/// Query of `GET /api/v1/folders/?page=&page_size=`.
pub struct PaginationQuery {
    pub page: Option<i64>,
    pub page_size: Option<i64>,
}

/// Public view of a folder.
pub struct FolderResponse {
    pub id: u128,
    pub user_id: u128,
    pub name: String,
    pub created_at: i64,
    pub updated_at: i64,
}

impl From<Folder> for FolderResponse {
    fn from(folder: Folder) -> (r: Self)
        ensures
            r.id == folder.id,
            r.user_id == folder.user_id,
            r.name == folder.name,
            r.created_at == folder.created_at,
            r.updated_at == folder.updated_at,
    {
        FolderResponse {
            id: folder.id,
            user_id: folder.user_id,
            name: folder.name,
            created_at: folder.created_at,
            updated_at: folder.updated_at,
        }
    }
}

impl vstd::std_specs::convert::FromSpecImpl<Folder> for FolderResponse {
    open spec fn obeys_from_spec() -> bool {
        true
    }

    open spec fn from_spec(folder: Folder) -> Self {
        FolderResponse {
            id: folder.id,
            user_id: folder.user_id,
            name: folder.name,
            created_at: folder.created_at,
            updated_at: folder.updated_at,
        }
    }
}

/// A folder's answer carries the folder as it is: its id, owner, name,
/// and its creation and last-update times, none swapped.
pub proof fn lemma_folder_response_keeps_fields(folder: Folder, r: FolderResponse)
    requires
        call_ensures(FolderResponse::from, (folder,), r),
    ensures
        r.id == folder.id,
        r.user_id == folder.user_id,
        r.name == folder.name,
        r.created_at == folder.created_at,
        r.updated_at == folder.updated_at,
{
}

/// Answer of `GET /api/v1/folders/`.
pub type PaginatedFoldersResponse = PaginatedResult<FolderResponse>;

} // verus!
