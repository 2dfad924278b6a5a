use lingcode::{
    account_url, acp_registry_blog, ai_privacy_and_security, edit_prediction_docs,
    parallel_agents_blog, shared_agent_thread_url, start_trial_url, terms_of_service,
    upgrade_to_zed_pro_url,
};
use lingcode::plans::PlanDefinitions;

#[test]
fn shared_thread_link() {
    assert_eq!(shared_agent_thread_url("abc-123"), "zed://agent/shared/abc-123");
    assert_eq!(shared_agent_thread_url(""), "zed://agent/shared/");
}

#[test]
fn fixed_site_links() {
    assert_eq!(account_url(), "https://lingcode.dev/account.html");
    assert_eq!(start_trial_url(), "https://lingcode.dev/pricing.html");
    assert_eq!(upgrade_to_zed_pro_url(), "https://lingcode.dev/pricing.html");
}

#[test]
fn server_links() {
    let server = "http://localhost:3000";
    assert_eq!(terms_of_service(server), "http://localhost:3000/terms-of-service");
    assert_eq!(
        ai_privacy_and_security(server),
        "http://localhost:3000/docs/ai/privacy-and-security"
    );
    assert_eq!(edit_prediction_docs(server), "http://localhost:3000/docs/ai/edit-prediction");
    assert_eq!(acp_registry_blog(server), "http://localhost:3000/blog/acp-registry");
    assert_eq!(parallel_agents_blog(server), "http://localhost:3000/blog");
}

#[test]
fn plan_bullets() {
    let plans = PlanDefinitions;
    assert_eq!(plans.free_plan().len(), 3);
    assert_eq!(plans.pro_plan()[1], "Deep Agent (server-side Agent SDK)");
    assert_eq!(plans.max_pro_plan()[2], "Everything in Pro");
}
