//! The folder use cases driven against an in-memory repository; HTTP
//! statuses come from the error mapping of the folders adapter.

use std::collections::HashMap;

use security_suite::folders::application::service::{FolderCreateStep, FolderService, FolderUpdateStep};
use security_suite::folders::domain::{DomainError, Folder};
use security_suite::folders::infrastructure::http::error_response::map_domain_error;
use security_suite::shared::pagination::{PaginatedResult, PendingPage};

struct MockFolderRepository {
    folders: HashMap<u128, Folder>,
}

impl MockFolderRepository {
    fn create(&mut self, folder: Folder) -> Result<Folder, DomainError> {
        self.folders.insert(folder.id, folder.clone());
        Ok(folder)
    }

    fn find_by_id(&self, user_id: u128, id: u128) -> Result<Option<Folder>, DomainError> {
        Ok(self.folders.get(&id).filter(|f| f.user_id == user_id).cloned())
    }

    fn find_by_name(&self, user_id: u128, name: &str) -> Result<Option<Folder>, DomainError> {
        Ok(self.folders.values().find(|f| f.user_id == user_id && f.name == name).cloned())
    }

    fn find_all(&self, user_id: u128, limit: i64, offset: i64) -> Result<Vec<Folder>, DomainError> {
        let mut mine: Vec<Folder> = self.folders.values().filter(|f| f.user_id == user_id).cloned().collect();
        mine.sort_by(|a, b| b.created_at.cmp(&a.created_at));
        let start = (offset as usize).min(mine.len());
        let end = (start + limit as usize).min(mine.len());
        Ok(mine[start..end].to_vec())
    }

    fn count_all(&self, user_id: u128) -> Result<i64, DomainError> {
        Ok(self.folders.values().filter(|f| f.user_id == user_id).count() as i64)
    }

    fn update(&mut self, user_id: u128, folder: Folder) -> Result<Folder, DomainError> {
        match self.folders.get(&folder.id) {
            Some(f) if f.user_id == user_id => {
                self.folders.insert(folder.id, folder.clone());
                Ok(folder)
            }
            _ => Err(DomainError::NotFound),
        }
    }

    fn delete(&mut self, user_id: u128, id: u128) -> Result<(), DomainError> {
        match self.folders.get(&id) {
            Some(f) if f.user_id == user_id => {
                self.folders.remove(&id);
                Ok(())
            }
            _ => Err(DomainError::NotFound),
        }
    }
}

struct Service {
    repository: MockFolderRepository,
}

impl Service {
    fn create_folder(&mut self, user_id: u128, name: &str) -> Result<Folder, DomainError> {
        let mut step = FolderService::create_folder(user_id, name.to_string());
        loop {
            step = match step {
                FolderCreateStep::LookupName(creation, owner, name) => {
                    creation.after_name_lookup(self.repository.find_by_name(owner, &name))
                }
                FolderCreateStep::Create(folder) => return self.repository.create(folder),
                FolderCreateStep::Done(result) => return result,
            };
        }
    }

    fn get_folder(&self, user_id: u128, id: u128) -> Result<Folder, DomainError> {
        FolderService::found_or_not_found(self.repository.find_by_id(user_id, id))
    }

    fn get_all_folders(&self, user_id: u128, page: Option<i64>, page_size: Option<i64>) -> Result<PaginatedResult<Folder>, DomainError> {
        let (owner, pagination) = FolderService::get_all_folders(user_id, page, page_size);
        let fetched = self.repository.find_all(owner, pagination.limit(), pagination.offset());
        PendingPage::after_fetch(pagination, fetched)?.after_count(self.repository.count_all(owner))
    }

    fn update_folder(&mut self, user_id: u128, id: u128, name: Option<&str>) -> Result<Folder, DomainError> {
        let update = FolderService::update_folder(user_id, id, name.map(|n| n.to_string()));
        let (owner, target) = update.target();
        let mut step = update.after_lookup(self.repository.find_by_id(owner, target));
        loop {
            step = match step {
                FolderUpdateStep::LookupName(pending, owner, name) => {
                    pending.after_name_lookup(self.repository.find_by_name(owner, &name))
                }
                FolderUpdateStep::Save(owner, folder) => return self.repository.update(owner, folder),
                FolderUpdateStep::Done(result) => return result,
            };
        }
    }

    fn delete_folder(&mut self, user_id: u128, id: u128) -> Result<(), DomainError> {
        let (owner, id) = FolderService::confirm_delete(user_id, id, self.repository.find_by_id(user_id, id))?;
        self.repository.delete(owner, id)
    }
}

const ALICE: u128 = 0x1111_1111_1111_4111_8111_1111_1111_1111;
const BOB: u128 = 0x2222_2222_2222_4222_8222_2222_2222_2222;
const UNKNOWN: u128 = 0x3333_3333_3333_4333_8333_3333_3333_3333;

fn build() -> Service {
    Service { repository: MockFolderRepository { folders: HashMap::new() } }
}

fn status(result: Result<Folder, DomainError>) -> u16 {
    match result {
        Ok(_) => 200,
        Err(e) => map_domain_error(e).0,
    }
}

#[test]
fn post_folders_crea_correctamente() {
    let mut service = build();
    let folder = service.create_folder(ALICE, "Ejemplo").unwrap();
    assert_eq!(folder.name, "Ejemplo");
    assert_eq!(folder.user_id, ALICE);
    assert_eq!(uuid::Uuid::from_u128(folder.id).get_version_num(), 4);
}

#[test]
fn post_folders_falla_si_el_nombre_es_muy_corto() {
    let mut service = build();
    let err = service.create_folder(ALICE, "ab").unwrap_err();
    let (code, body) = map_domain_error(err);
    assert_eq!(code, 400);
    assert_eq!(body.error, "El name debe tener al menos 3 caracteres");
}

#[test]
fn post_folders_falla_si_el_nombre_ya_existe() {
    let mut service = build();
    service.create_folder(ALICE, "Duplicado").unwrap();
    assert_eq!(status(service.create_folder(ALICE, "Duplicado")), 409);
    // Another user may use the same name.
    assert!(service.create_folder(BOB, "Duplicado").is_ok());
}

#[test]
fn get_folder_devuelve_404_si_no_existe() {
    let service = build();
    assert_eq!(status(service.get_folder(ALICE, UNKNOWN)), 404);
}

#[test]
fn get_folder_devuelve_el_creado() {
    let mut service = build();
    let created = service.create_folder(ALICE, "Original").unwrap();
    let found = service.get_folder(ALICE, created.id).unwrap();
    assert_eq!(found.name, "Original");
    // Nobody else sees it.
    assert_eq!(status(service.get_folder(BOB, created.id)), 404);
}

#[test]
fn put_folder_actualiza_el_nombre() {
    let mut service = build();
    let created = service.create_folder(ALICE, "Original").unwrap();
    let updated = service.update_folder(ALICE, created.id, Some("Nuevo")).unwrap();
    assert_eq!(updated.name, "Nuevo");
    assert_eq!(updated.id, created.id);
    assert_eq!(updated.created_at, created.created_at);
}

#[test]
fn delete_folder_elimina_correctamente() {
    let mut service = build();
    let created = service.create_folder(ALICE, "Borrame").unwrap();
    service.delete_folder(ALICE, created.id).unwrap();
    assert_eq!(status(service.get_folder(ALICE, created.id)), 404);
}

#[test]
fn delete_folder_falla_si_no_existe() {
    let mut service = build();
    let err = service.delete_folder(ALICE, UNKNOWN).unwrap_err();
    assert_eq!(map_domain_error(err).0, 404);
}

#[test]
fn get_folders_pagina_los_resultados() {
    let mut service = build();
    for i in 0..5 {
        service.create_folder(ALICE, &format!("Item {i}")).unwrap();
    }
    service.create_folder(BOB, "Ajeno").unwrap();
    let page = service.get_all_folders(ALICE, Some(1), Some(2)).unwrap();
    assert_eq!(page.items.len(), 2);
    assert_eq!(page.total_items, 5);
    assert_eq!(page.total_pages, 3);
}

#[test]
fn rename_to_a_taken_name_is_a_conflict() {
    let mut service = build();
    service.create_folder(ALICE, "Uno").unwrap();
    let dos = service.create_folder(ALICE, "Dos").unwrap();
    let err = service.update_folder(ALICE, dos.id, Some("Uno")).unwrap_err();
    let (code, body) = map_domain_error(err);
    assert_eq!(code, 409);
    assert_eq!(body.error, "Ya existe un/a folder con el name 'Uno'");
    // Keeping its own name is no conflict.
    assert!(service.update_folder(ALICE, dos.id, Some("Dos")).is_ok());
    // No name keeps the folder as it is.
    assert_eq!(service.update_folder(ALICE, dos.id, None).unwrap().name, "Dos");
}

#[test]
fn nil_owner_is_rejected() {
    let mut service = build();
    match service.create_folder(0, "Carpeta") {
        Err(DomainError::Validation(m)) => assert_eq!(m, "El ID de usuario no puede ser nulo"),
        _ => panic!("expected a validation error"),
    }
}

#[test]
fn folder_errors_map_to_statuses() {
    assert_eq!(map_domain_error(DomainError::NotFound).1.error, "Folder no encontrado");
    assert_eq!(map_domain_error(DomainError::Repository("db down".to_string())).0, 500);
    assert_eq!(map_domain_error(DomainError::Repository("db down".to_string())).1.error, "Error interno del servidor");
    assert_eq!(DomainError::Conflict("x".to_string()).message(), "Conflicto: x");
}
