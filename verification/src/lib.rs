//! Editor-side logic of the LingCode integrations: links, LingModel sign-in,
//! package-manager detection, the cloud and remote-coding tasks, the Android
//! tooling, project templates, and the state of their progress views.
pub mod android;
pub mod android_text;
pub mod auth;
pub mod cloud;
pub mod install;
pub mod lingmodel;
pub mod modal;
pub mod play;
pub mod plans;
pub mod remote;
pub mod template_files;
pub mod templates;
pub mod text;
pub mod urls;

pub use android::AndroidModal;
pub use auth::{
    LingModelAuthCallback, LingModelAuthEvent, LingModelAuthListener, deliver_ling_model_auth,
};
pub use cloud::CloudModal;
pub use install::InstallModal;
pub use lingmodel::{LingModelLanguageModelProvider, LingModelModel, State};
pub use plans::PlanDefinitions;
pub use remote::RemoteServer;
pub use urls::{
    account_url, acp_registry_blog, ai_privacy_and_security, edit_prediction_docs,
    parallel_agents_blog, shared_agent_thread_url, start_trial_url, terms_of_service,
    upgrade_to_zed_pro_url,
};
