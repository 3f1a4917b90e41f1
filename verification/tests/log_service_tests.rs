use security_suite::logs::application::service::LogService;
use security_suite::logs::domain::{ActionLog, DomainError, Log, LogFilter, ResourceLog};
use security_suite::logs::infrastructure::http::dto::LogResponse;
use security_suite::logs::infrastructure::http::error_response::map_domain_error;

#[test]
fn create_log_keeps_its_fields() {
    let log = LogService::create_log(Some(5), ActionLog::Create, ResourceLog::Folder, Some(9), "creó una carpeta".to_string()).unwrap();
    assert_eq!(log.user_id, Some(5));
    assert_eq!(log.action, ActionLog::Create);
    assert_eq!(log.resource, ResourceLog::Folder);
    assert_eq!(log.resource_id, Some(9));
    assert_eq!(log.details, "creó una carpeta");
    let response = LogResponse::from(log.clone());
    assert_eq!(response.id, log.id);
    assert_eq!(response.details, log.details);
}

#[test]
fn create_log_rejects_short_details() {
    let err = LogService::create_log(None, ActionLog::Login, ResourceLog::User, None, "  ab ".to_string()).unwrap_err();
    let (code, body) = map_domain_error(err);
    assert_eq!(code, 400);
    assert_eq!(body.error, "Los detalles deben tener al menos 3 caracteres");
}

#[test]
fn missing_log_is_not_found() {
    let err = LogService::found_or_not_found(Ok(None::<Log>)).unwrap_err();
    let (code, body) = map_domain_error(err);
    assert_eq!(code, 404);
    assert_eq!(body.error, "Log no encontrado");
    assert_eq!(map_domain_error(DomainError::Repository("x".to_string())).0, 500);
}

#[test]
fn listings_normalize_the_page() {
    let (user, p) = LogService::get_all_logs_by_user_id(3, Some(0), Some(1000));
    assert_eq!((user, p.page(), p.page_size()), (LogFilter::ByUser(3), 1, 100));
    let (resource, p) = LogService::get_all_logs_by_resource(&ResourceLog::File, None, None);
    assert_eq!((resource, p.page(), p.page_size()), (LogFilter::ByResource(ResourceLog::File), 1, 20));
    let (action, p) = LogService::get_all_logs_by_action(&ActionLog::Logout, Some(2), Some(5));
    assert_eq!((action, p.offset()), (LogFilter::ByAction(ActionLog::Logout), 5));
}
