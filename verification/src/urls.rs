use vstd::prelude::*;
use vstd::string::*;

verus! {

/// The link under which a shared agent thread can be opened.
pub open spec fn shared_thread_link(session_id: Seq<char>) -> Seq<char> {
    "zed://agent/shared/"@ + session_id
}

/// Returns the link that opens the shared agent thread `session_id`.
pub fn shared_agent_thread_url(session_id: &str) -> (url: String)
    ensures
        url@ == shared_thread_link(session_id@),
{
    let mut url = String::from_str("zed://agent/shared/");
    url.append(session_id);
    url
}


/// The LingCode account page (served from the LingCode web root, independent
/// of the configured server).
pub fn account_url() -> (r: String)
    ensures
        r@ == "https://lingcode.dev/account.html"@,
{
    String::from_str("https://lingcode.dev/account.html")
}

/// The LingCode pricing page, which hosts the plans and their checkout links
/// (there is no separate trial flow).
pub fn start_trial_url() -> (r: String)
    ensures
        r@ == "https://lingcode.dev/pricing.html"@,
{
    String::from_str("https://lingcode.dev/pricing.html")
}

/// The LingCode pricing page, where plans are upgraded.
pub fn upgrade_to_zed_pro_url() -> (r: String)
    ensures
        r@ == "https://lingcode.dev/pricing.html"@,
{
    String::from_str("https://lingcode.dev/pricing.html")
}

fn server_page(server_url: &str, path: &str) -> (r: String)
    ensures
        r@ == server_url@ + path@,
{
    let mut r = String::from_str(server_url);
    r.append(path);
    r
}

/// The terms of service under the configured server URL.
pub fn terms_of_service(server_url: &str) -> (r: String)
    ensures
        r@ == server_url@ + "/terms-of-service"@,
{
    server_page(server_url, "/terms-of-service")
}

/// The AI privacy and security docs under the configured server URL.
pub fn ai_privacy_and_security(server_url: &str) -> (r: String)
    ensures
        r@ == server_url@ + "/docs/ai/privacy-and-security"@,
{
    server_page(server_url, "/docs/ai/privacy-and-security")
}

/// The edit prediction docs under the configured server URL.
pub fn edit_prediction_docs(server_url: &str) -> (r: String)
    ensures
        r@ == server_url@ + "/docs/ai/edit-prediction"@,
{
    server_page(server_url, "/docs/ai/edit-prediction")
}

/// The ACP registry blog post under the configured server URL.
pub fn acp_registry_blog(server_url: &str) -> (r: String)
    ensures
        r@ == server_url@ + "/blog/acp-registry"@,
{
    server_page(server_url, "/blog/acp-registry")
}

/// The blog under the configured server URL.
pub fn parallel_agents_blog(server_url: &str) -> (r: String)
    ensures
        r@ == server_url@ + "/blog"@,
{
    server_page(server_url, "/blog")
}

} // verus!
