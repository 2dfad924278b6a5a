//! The bullet points that describe the LingCode AI plans.
use vstd::prelude::*;
use crate::install::str_views;

verus! {

/// Centralized definitions for the LingCode AI plans.
pub struct PlanDefinitions;

impl PlanDefinitions {
    /// What the free plan includes.
    pub fn free_plan(&self) -> (r: Vec<&'static str>)
        ensures
            str_views(r@) == seq![
                "Full native IDE, /try playground, and CLI"@,
                "Unlimited prompts with your own AI API keys"@,
                "Unlimited use of external agents"@,
            ],
    {
        let r = vec![
            "Full native IDE, /try playground, and CLI",
            "Unlimited prompts with your own AI API keys",
            "Unlimited use of external agents",
        ];
        assert(str_views(r@) =~= seq![
            "Full native IDE, /try playground, and CLI"@,
            "Unlimited prompts with your own AI API keys"@,
            "Unlimited use of external agents"@,
        ]);
        r
    }

    /// What the Pro plan includes.
    pub fn pro_plan(&self) -> (r: Vec<&'static str>)
        ensures
            str_views(r@) == seq![
                "LingModel managed inference — unlimited prompts, fair-use limits"@,
                "Deep Agent (server-side Agent SDK)"@,
                "Everything in Free, plus Pro-tier limits"@,
            ],
    {
        let r = vec![
            "LingModel managed inference — unlimited prompts, fair-use limits",
            "Deep Agent (server-side Agent SDK)",
            "Everything in Free, plus Pro-tier limits",
        ];
        assert(str_views(r@) =~= seq![
            "LingModel managed inference — unlimited prompts, fair-use limits"@,
            "Deep Agent (server-side Agent SDK)"@,
            "Everything in Free, plus Pro-tier limits"@,
        ]);
        r
    }

    /// What the Max Pro plan includes.
    pub fn max_pro_plan(&self) -> (r: Vec<&'static str>)
        ensures
            str_views(r@) == seq![
                "5× higher LingModel daily & monthly throughput"@,
                "Priority inference queue and higher Deep Agent budgets"@,
                "Everything in Pro"@,
            ],
    {
        let r = vec![
            "5× higher LingModel daily & monthly throughput",
            "Priority inference queue and higher Deep Agent budgets",
            "Everything in Pro",
        ];
        assert(str_views(r@) =~= seq![
            "5× higher LingModel daily & monthly throughput"@,
            "Priority inference queue and higher Deep Agent budgets"@,
            "Everything in Pro"@,
        ]);
        r
    }
}

} // verus!
