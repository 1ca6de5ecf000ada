use churon::errors::ChurOnError;
use churon::provider::ProviderSpec;
use churon::session::RSession;

#[test]
fn test_execution_provider_parsing() {
    let providers = vec!["cuda".to_string(), "cpu".to_string()];
    let result = RSession::get_execution_providers(Some(providers));
    assert!(result.is_ok());

    let execution_providers = result.unwrap();
    assert_eq!(execution_providers.len(), 2);
}

#[test]
fn test_execution_provider_parsing_invalid() {
    let providers = vec!["invalid_provider".to_string()];
    let result = RSession::get_execution_providers(Some(providers));
    assert!(result.is_err());

    if let Err(ChurOnError::Provider(msg)) = result {
        assert!(msg.contains("Unknown execution provider"));
    } else {
        panic!("Expected Provider error");
    }
}

#[test]
fn test_execution_provider_default() {
    let result = RSession::get_execution_providers(None);
    assert!(result.is_ok());

    let execution_providers = result.unwrap();
    assert!(!execution_providers.is_empty());

    assert!(execution_providers.iter().any(|ep| matches!(ep, ProviderSpec::Cpu)));
}

#[test]
fn test_execution_provider_cpu_fallback() {
    let providers = vec!["cuda".to_string()];
    let result = RSession::get_execution_providers(Some(providers));
    assert!(result.is_ok());

    let execution_providers = result.unwrap();
    assert_eq!(execution_providers.len(), 2);
    assert!(execution_providers.iter().any(|ep| matches!(ep, ProviderSpec::Cpu)));
    assert!(execution_providers.iter().any(|ep| matches!(ep, ProviderSpec::Cuda)));
}

#[test]
fn test_resolve_cuda_gives_ordered_cuda_cpu() {
    let result = RSession::get_execution_providers(Some(vec!["cuda".to_string()])).unwrap();
    assert_eq!(result, vec![ProviderSpec::Cuda, ProviderSpec::Cpu]);
}

#[test]
fn test_resolve_cpu_alone_no_duplicate() {
    let result = RSession::get_execution_providers(Some(vec!["cpu".to_string()])).unwrap();
    assert_eq!(result, vec![ProviderSpec::Cpu]);
}

#[test]
fn test_resolve_bogus_fails_with_name() {
    let result = RSession::get_execution_providers(Some(vec!["bogus".to_string()]));
    match result {
        Err(ChurOnError::Provider(msg)) => {
            assert_eq!(msg, "Unknown execution provider: bogus");
        },
        _ => panic!("Expected Provider error"),
    }
}

#[test]
fn test_resolve_is_case_insensitive() {
    let result = RSession::get_execution_providers(Some(vec!["CUDA".to_string()])).unwrap();
    assert_eq!(result, vec![ProviderSpec::Cuda, ProviderSpec::Cpu]);
}

#[test]
fn test_resolve_deduplicates_first_seen() {
    let providers = vec!["cuda".to_string(), "CUDA".to_string(), "onednn".to_string()];
    let result = RSession::get_execution_providers(Some(providers)).unwrap();
    assert_eq!(result, vec![ProviderSpec::Cuda, ProviderSpec::OneDnn, ProviderSpec::Cpu]);
}

#[test]
fn test_resolve_none_ends_in_cpu() {
    let result = RSession::get_execution_providers(None).unwrap();
    assert!(!result.is_empty());
    assert_eq!(result.last(), Some(&ProviderSpec::Cpu));
    assert_eq!(result.iter().filter(|ep| matches!(ep, ProviderSpec::Cpu)).count(), 1);
}

#[test]
fn test_extract_used_providers_reports_cpu() {
    assert_eq!(RSession::extract_used_providers(), vec!["CPU".to_string()]);
}
