//! Todo-item (XPath) pipeline: classifies a query payload against a
//! table of node-selection patterns, collects its parameter flags,
//! enriches it with session metadata, appends environment and security
//! tags, and reports one status line per expression sink.

use vstd::prelude::*;

use crate::clock;
use crate::numeral::{
    dec_digits, dec_int, hex_digits, lemma_dec_digits_range, lemma_hex_digits_range,
    render_hex_u64, render_i64, render_u128, render_u64, render_usize,
};
use crate::text::{
    ascii_str, contains_lit, contains_seq, count_byte, count_byte_exec, has_param,
    has_param_exec, join_bytes, join_with, lemma_append_keeps_tagged_prefix,
    lemma_append_keeps_take, lemma_nul_free_concat, lemma_nul_free_join, lemma_nul_free_replace,
    lemma_prefix_contains, lemma_split_len, lit, lit_vec, lower_seq, nul_free, param_keys,
    param_keys_exec, push_lit, replace_bytes, replace_seq, split_bytes, split_seq,
    to_lower_bytes,
};

verus! {

/// The query part before the first `|`.
pub open spec fn xpath_base(s: Seq<u8>) -> Seq<u8> {
    split_seq(s, 124)[0]
}

/// The parameter part between the first and second `|`, if any.
pub open spec fn xpath_params(s: Seq<u8>) -> Seq<u8> {
    if split_seq(s, 124).len() >= 2 {
        split_seq(s, 124)[1]
    } else {
        Seq::<u8>::empty()
    }
}

/// Operation, priority and category chosen by the first pattern of the
/// classification table that the lowercase base query holds.
pub open spec fn xpath_class_tag(low: Seq<u8>) -> Seq<u8> {
    if contains_seq(low, lit("//todo")) {
        lit("OPERATION=TODO_NODE_SELECTION -- PRIORITY=NODE_QUERY -- CATEGORY=SELECTION_OPERATION")
    } else if contains_seq(low, lit("//user")) {
        lit("OPERATION=USER_NODE_SELECTION -- PRIORITY=NODE_QUERY -- CATEGORY=SELECTION_OPERATION")
    } else if contains_seq(low, lit("//task")) {
        lit("OPERATION=TASK_NODE_SELECTION -- PRIORITY=NODE_QUERY -- CATEGORY=SELECTION_OPERATION")
    } else if contains_seq(low, lit("//project")) {
        lit(
            "OPERATION=PROJECT_NODE_SELECTION -- PRIORITY=NODE_QUERY -- CATEGORY=SELECTION_OPERATION",
        )
    } else if contains_seq(low, lit("//category")) {
        lit(
            "OPERATION=CATEGORY_NODE_SELECTION -- PRIORITY=NODE_QUERY -- CATEGORY=SELECTION_OPERATION",
        )
    } else if contains_seq(low, lit("//priority")) {
        lit(
            "OPERATION=PRIORITY_NODE_SELECTION -- PRIORITY=NODE_QUERY -- CATEGORY=SELECTION_OPERATION",
        )
    } else if contains_seq(low, lit("//status")) {
        lit(
            "OPERATION=STATUS_NODE_SELECTION -- PRIORITY=NODE_QUERY -- CATEGORY=SELECTION_OPERATION",
        )
    } else if contains_seq(low, lit("//deadline")) {
        lit(
            "OPERATION=DEADLINE_NODE_SELECTION -- PRIORITY=NODE_QUERY -- CATEGORY=SELECTION_OPERATION",
        )
    } else if contains_seq(low, lit("//assigned")) {
        lit(
            "OPERATION=ASSIGNED_NODE_SELECTION -- PRIORITY=NODE_QUERY -- CATEGORY=SELECTION_OPERATION",
        )
    } else if contains_seq(low, lit("//completed")) {
        lit(
            "OPERATION=COMPLETED_NODE_SELECTION -- PRIORITY=NODE_QUERY -- CATEGORY=SELECTION_OPERATION",
        )
    } else if contains_seq(low, lit("//archived")) {
        lit(
            "OPERATION=ARCHIVED_NODE_SELECTION -- PRIORITY=NODE_QUERY -- CATEGORY=SELECTION_OPERATION",
        )
    } else if contains_seq(low, lit("//template")) {
        lit(
            "OPERATION=TEMPLATE_NODE_SELECTION -- PRIORITY=NODE_QUERY -- CATEGORY=SELECTION_OPERATION",
        )
    } else if contains_seq(low, lit("//version")) {
        lit(
            "OPERATION=VERSION_NODE_SELECTION -- PRIORITY=NODE_QUERY -- CATEGORY=SELECTION_OPERATION",
        )
    } else if contains_seq(low, lit("//history")) {
        lit(
            "OPERATION=HISTORY_NODE_SELECTION -- PRIORITY=NODE_QUERY -- CATEGORY=SELECTION_OPERATION",
        )
    } else if contains_seq(low, lit("//analytics")) {
        lit(
            "OPERATION=ANALYTICS_NODE_SELECTION -- PRIORITY=NODE_QUERY -- CATEGORY=SELECTION_OPERATION",
        )
    } else if contains_seq(low, lit("//report")) {
        lit(
            "OPERATION=REPORT_NODE_SELECTION -- PRIORITY=NODE_QUERY -- CATEGORY=SELECTION_OPERATION",
        )
    } else if contains_seq(low, lit("//search")) {
        lit(
            "OPERATION=SEARCH_NODE_SELECTION -- PRIORITY=SEARCH_QUERY -- CATEGORY=SEARCH_OPERATION",
        )
    } else if contains_seq(low, lit("//filter")) {
        lit(
            "OPERATION=FILTER_NODE_SELECTION -- PRIORITY=FILTER_QUERY -- CATEGORY=FILTER_OPERATION",
        )
    } else if contains_seq(low, lit("//sort")) {
        lit("OPERATION=SORT_NODE_SELECTION -- PRIORITY=SORT_QUERY -- CATEGORY=SORT_OPERATION")
    } else if contains_seq(low, lit("//aggregate")) {
        lit(
            "OPERATION=AGGREGATE_NODE_SELECTION -- PRIORITY=AGGREGATE_QUERY -- CATEGORY=AGGREGATE_OPERATION",
        )
    } else {
        lit("OPERATION=XPATH_GENERIC_QUERY -- PRIORITY=STANDARD -- CATEGORY=GENERAL")
    }
}

/// The validation type decided by the query parameters; a later
/// parameter in the list overrides an earlier one.
pub open spec fn xpath_validation_type(p: Seq<u8>) -> Seq<u8> {
    if has_param(p, lit("namespace")) {
        lit("NAMESPACED")
    } else if has_param(p, lit("wildcard")) {
        lit("WILDCARD")
    } else if has_param(p, lit("recursive")) {
        lit("RECURSIVE")
    } else {
        lit("STANDARD")
    }
}

/// The validation flags, in the order the parse stage collects them.
pub open spec fn xpath_flags(low: Seq<u8>, p: Seq<u8>) -> Seq<Seq<u8>> {
    let f0 = Seq::<Seq<u8>>::empty();
    let f1 = if has_param(p, lit("recursive")) {
        f0.push(lit("RECURSIVE_FLAG"))
    } else {
        f0
    };
    let f2 = if has_param(p, lit("deep")) {
        f1.push(lit("DEEP_SEARCH_FLAG"))
    } else {
        f1
    };
    let f3 = if has_param(p, lit("wildcard")) {
        f2.push(lit("WILDCARD_FLAG"))
    } else {
        f2
    };
    let f4 = if has_param(p, lit("case_sensitive")) {
        f3.push(lit("CASE_SENSITIVE_FLAG"))
    } else {
        f3
    };
    let f5 = if has_param(p, lit("namespace")) {
        f4.push(lit("NAMESPACE_FLAG"))
    } else {
        f4
    };
    let f6 = if contains_seq(low, lit("admin")) || contains_seq(low, lit("root")) {
        f5.push(lit("ADMIN_ACCESS"))
    } else {
        f5
    };
    if contains_seq(low, lit("debug")) || contains_seq(low, lit("test")) {
        f6.push(lit("DEBUG_MODE"))
    } else {
        f6
    }
}

/// Query complexity: slashes in the base query plus distinct parameters.
pub open spec fn xpath_complexity(s: Seq<u8>) -> nat {
    count_byte(xpath_base(s), 47) + param_keys(xpath_params(s)).len()
}

/// Parse stage: the payload followed by the classification metadata.
pub open spec fn spec_parse_xpath(s: Seq<u8>) -> Seq<u8> {
    let low = lower_seq(xpath_base(s));
    let p = xpath_params(s);
    s + lit(" -- ") + xpath_class_tag(low) + lit(" -- TYPE=") + xpath_validation_type(p) + lit(
        " -- COMPLEXITY=",
    ) + dec_digits(xpath_complexity(s)) + lit(" -- FLAGS=") + join_with(
        xpath_flags(low, p),
        lit(","),
    ) + lit(" -- LENGTH=") + dec_digits(s.len())
}

/// A clock-derived remainder; clock readings before the epoch clamp to
/// zero.
pub open spec fn tsmod(ts: i64, m: int) -> nat {
    if ts >= 0 {
        ((ts as int) % m) as nat
    } else {
        0
    }
}

/// The low 32 bits of a doubled byte count, as the enrich stage
/// reports simulated memory usage.
pub open spec fn mem32(n: nat) -> nat {
    (2 * n) % 0x1_0000_0000
}

/// The query context tag chosen by the enrich stage.
pub open spec fn xpath_context_tag(d: Seq<u8>) -> Seq<u8> {
    if contains_seq(d, lit("todo")) {
        lit("CONTEXT=TODO_QUERY")
    } else if contains_seq(d, lit("user")) {
        lit("CONTEXT=USER_QUERY")
    } else if contains_seq(d, lit("task")) {
        lit("CONTEXT=TASK_QUERY")
    } else if contains_seq(d, lit("project")) {
        lit("CONTEXT=PROJECT_QUERY")
    } else if contains_seq(d, lit("category")) {
        lit("CONTEXT=CATEGORY_QUERY")
    } else if contains_seq(d, lit("priority")) {
        lit("CONTEXT=PRIORITY_QUERY")
    } else if contains_seq(d, lit("status")) {
        lit("CONTEXT=STATUS_QUERY")
    } else if contains_seq(d, lit("deadline")) {
        lit("CONTEXT=DEADLINE_QUERY")
    } else if contains_seq(d, lit("assigned")) {
        lit("CONTEXT=ASSIGNED_QUERY")
    } else if contains_seq(d, lit("completed")) {
        lit("CONTEXT=COMPLETED_QUERY")
    } else if contains_seq(d, lit("archived")) {
        lit("CONTEXT=ARCHIVED_QUERY")
    } else if contains_seq(d, lit("template")) {
        lit("CONTEXT=TEMPLATE_QUERY")
    } else if contains_seq(d, lit("version")) {
        lit("CONTEXT=VERSION_QUERY")
    } else if contains_seq(d, lit("history")) {
        lit("CONTEXT=HISTORY_QUERY")
    } else if contains_seq(d, lit("analytics")) {
        lit("CONTEXT=ANALYTICS_QUERY")
    } else if contains_seq(d, lit("report")) {
        lit("CONTEXT=REPORT_QUERY")
    } else {
        lit("CONTEXT=GENERAL_QUERY")
    }
}

/// The security tag chosen by the enrich stage.
pub open spec fn xpath_security_tag(d: Seq<u8>) -> Seq<u8> {
    if contains_seq(d, lit("admin")) {
        lit("SECURITY=ADMIN_ACCESS")
    } else if contains_seq(d, lit("external")) {
        lit("SECURITY=EXTERNAL_ACCESS")
    } else if contains_seq(d, lit("api")) {
        lit("SECURITY=API_ACCESS")
    } else if contains_seq(d, lit("debug")) {
        lit("SECURITY=DEBUG_ACCESS")
    } else {
        lit("SECURITY=STANDARD_ACCESS")
    }
}

/// The business tag chosen by the enrich stage.
pub open spec fn xpath_business_tag(d: Seq<u8>) -> Seq<u8> {
    if contains_seq(d, lit("urgent")) {
        lit("BUSINESS=URGENT_QUERY")
    } else if contains_seq(d, lit("confidential")) {
        lit("BUSINESS=CONFIDENTIAL_QUERY")
    } else if contains_seq(d, lit("bulk")) {
        lit("BUSINESS=BULK_QUERY")
    } else if contains_seq(d, lit("template")) {
        lit("BUSINESS=TEMPLATE_QUERY")
    } else {
        lit("BUSINESS=STANDARD_QUERY")
    }
}

/// Enrich stage: timestamp, session, version, context, request ids,
/// simulated performance and network figures, security and business
/// tags.
pub open spec fn spec_enrich_xpath(d: Seq<u8>, ts: i64) -> Seq<u8> {
    d + lit(" -- TIMESTAMP=") + dec_int(ts as int) + lit(" -- SESSION=SESS_") + dec_digits(
        tsmod(ts, 10000),
    ) + lit(" -- VERSION=v1.0 -- ") + xpath_context_tag(d) + lit(" -- QUERY_HASH=QUERY_")
        + hex_digits(tsmod(ts, 0xFFFF)) + lit(" -- REQUEST_ID=REQ_") + hex_digits(
        tsmod(ts, 0xFFFFFF),
    ) + lit(" -- CORRELATION_ID=CORR_") + hex_digits(tsmod(ts, 0xFFFFFFFF)) + lit(
        " -- PERFORMANCE[SIZE=",
    ) + dec_digits(d.len()) + lit(",TIME=") + dec_digits(tsmod(ts, 1000)) + lit(",MEMORY=")
        + dec_digits(mem32(d.len())) + lit(",CPU=") + dec_digits(tsmod(ts, 100)) + lit(
        "] -- SESSION_DURATION=",
    ) + dec_digits(tsmod(ts, 3600)) + lit(" -- QUERY_COUNT=") + dec_digits(tsmod(ts, 100) + 1)
        + lit(" -- NETWORK[LATENCY=") + dec_digits(tsmod(ts, 500)) + lit(",LOAD=") + dec_digits(
        tsmod(ts, 100),
    ) + lit(",CACHE=") + dec_digits(tsmod(ts, 100)) + lit("] -- ") + xpath_security_tag(d) + lit(
        " -- ",
    ) + xpath_business_tag(d)
}

/// Environment and selection tags appended by the finalize stage.
pub open spec fn xpath_env_steps(e: Seq<u8>) -> Seq<u8> {
    let a1 = if contains_seq(lower_seq(e), lit("//todo")) {
        e + lit(
            " -- XML_TYPE=TODO_SELECTION -- XML_VERSION=1.0 -- NAMESPACE_SUPPORT=ENABLED -- WILDCARD_SUPPORT=ENABLED",
        )
    } else {
        e
    };
    let a2 = if contains_seq(lower_seq(a1), lit("//user")) {
        a1 + lit(
            " -- XML_TYPE=USER_SELECTION -- XML_VERSION=1.0 -- AUTHENTICATION=REQUIRED -- PRIVACY_CONTROL=ENABLED",
        )
    } else {
        a1
    };
    let a3 = if contains_seq(lower_seq(a2), lit("//project")) {
        a2 + lit(
            " -- XML_TYPE=PROJECT_SELECTION -- XML_VERSION=1.0 -- HIERARCHY_SUPPORT=ENABLED -- RELATIONSHIP_TRACKING=ENABLED",
        )
    } else {
        a2
    };
    let a4 = if contains_seq(lower_seq(a3), lit("//analytics")) {
        a3 + lit(
            " -- XML_TYPE=ANALYTICS_SELECTION -- XML_VERSION=1.0 -- AGGREGATION_SUPPORT=ENABLED -- METRICS_COLLECTION=ENABLED",
        )
    } else {
        a3
    };
    let a5 = if contains_seq(lower_seq(a4), lit("localhost")) {
        a4 + lit(
            " -- ENVIRONMENT=LOCAL -- DEBUG_MODE=ENABLED -- CACHE_DISABLED=TRUE -- LOG_LEVEL=DEBUG",
        )
    } else {
        a4
    };
    let a6 = if contains_seq(lower_seq(a5), lit("staging")) {
        a5 + lit(
            " -- ENVIRONMENT=STAGING -- TEST_DATA=ENABLED -- MONITORING=ENHANCED -- BACKUP_DISABLED=TRUE",
        )
    } else {
        a5
    };
    let a7 = if contains_seq(lower_seq(a6), lit("production")) {
        a6 + lit(
            " -- ENVIRONMENT=PRODUCTION -- SECURITY=MAXIMUM -- MONITORING=REAL_TIME -- BACKUP=ENABLED",
        )
    } else {
        a6
    };
    if contains_seq(lower_seq(a7), lit("development")) {
        a7 + lit(
            " -- ENVIRONMENT=DEVELOPMENT -- HOT_RELOAD=ENABLED -- DEBUGGER=ATTACHED -- PROFILING=ENABLED",
        )
    } else {
        a7
    }
}

/// The safety-check marker is rewritten where present and noted as
/// skipped otherwise.
pub open spec fn xpath_validation_step(x: Seq<u8>) -> Seq<u8> {
    if contains_seq(x, lit("-- SAFETY_CHECK")) {
        replace_seq(x, lit("-- SAFETY_CHECK"), lit("-- XML_VALIDATION=ENABLED"))
    } else {
        x + lit(" -- XML_VALIDATION=SKIPPED")
    }
}

/// Security and optimization tags appended by the finalize stage.
pub open spec fn xpath_access_steps(x: Seq<u8>) -> Seq<u8> {
    let a10 = if contains_seq(x, lit("admin")) || contains_seq(x, lit("root")) {
        x + lit(
            " -- SECURITY_LEVEL=ADMIN -- ACCESS_CONTROL=STRICT -- AUDIT_LOGGING=ENABLED -- SESSION_VALIDATION=REQUIRED",
        )
    } else {
        x
    };
    let a11 = if contains_seq(a10, lit("external")) {
        a10 + lit(
            " -- EXTERNAL_ACCESS=ENABLED -- CORS_POLICY=STRICT -- RATE_LIMITING=ENABLED -- IP_WHITELIST=REQUIRED",
        )
    } else {
        a10
    };
    let a12 = if contains_seq(a11, lit("api")) {
        a11 + lit(
            " -- API_ACCESS=ENABLED -- AUTHENTICATION=REQUIRED -- RATE_LIMITING=ENABLED -- VERSIONING=ENABLED",
        )
    } else {
        a11
    };
    let a13 = if contains_seq(a12, lit("bulk")) {
        a12 + lit(
            " -- BULK_QUERY=ENABLED -- BATCH_SIZE=OPTIMIZED -- MEMORY_ALLOCATION=INCREASED -- THREAD_POOL=EXPANDED",
        )
    } else {
        a12
    };
    let a14 = if contains_seq(a13, lit("search")) || contains_seq(a13, lit("filter")) {
        a13 + lit(
            " -- SEARCH_OPTIMIZATION=ENABLED -- INDEX_UTILIZATION=MAXIMUM -- CACHE_STRATEGY=AGGRESSIVE -- QUERY_OPTIMIZATION=ENABLED",
        )
    } else {
        a13
    };
    if contains_seq(a14, lit("analytics")) {
        a14 + lit(
            " -- ANALYTICS_MODE=ENABLED -- DATA_COLLECTION=ENHANCED -- METRICS_AGGREGATION=REAL_TIME -- REPORTING=ENABLED",
        )
    } else {
        a14
    }
}

/// Finalize stage: selection, environment, validation, security and
/// optimization tags, with the safety-check marker rewritten if it is
/// present and noted as skipped otherwise.
pub open spec fn spec_prepare_xpath(e: Seq<u8>) -> Seq<u8> {
    xpath_access_steps(xpath_validation_step(xpath_env_steps(e)))
}

/// The finalized pipeline output for a payload and a clock reading.
pub open spec fn spec_xpath_final(s: Seq<u8>, ts: i64) -> Seq<u8> {
    spec_prepare_xpath(spec_enrich_xpath(spec_parse_xpath(s), ts))
}

/// Status line of the first expression sink.
pub open spec fn spec_first_xpath_status(n: nat) -> Seq<u8> {
    lit("First task validation operation completed: ") + dec_digits(n) + lit(" bytes")
}

/// Status line of the second expression sink.
pub open spec fn spec_second_xpath_status(n: nat) -> Seq<u8> {
    lit("Second task validation operation completed: ") + dec_digits(n) + lit(" bytes")
}

/// Status line of the third expression sink.
pub open spec fn spec_third_xpath_status(n: nat) -> Seq<u8> {
    lit("Third task validation operation completed: ") + dec_digits(n) + lit(" bytes")
}

/// The summary a todo-item pipeline run returns.
pub open spec fn spec_handle_xpath(s: Seq<u8>, ts: i64) -> Seq<u8> {
    lit("Todo item operations completed: ") + spec_first_xpath_status(
        spec_xpath_final(s, ts).len(),
    ) + lit(", ") + spec_second_xpath_status(spec_xpath_final(s, ts).len()) + lit(", ")
        + spec_third_xpath_status(spec_xpath_final(s, ts).len())
}

proof fn xpath_tags_ascii()
    ensures
        ascii_str("//todo"),
        ascii_str("OPERATION=TODO_NODE_SELECTION -- PRIORITY=NODE_QUERY -- CATEGORY=SELECTION_OPERATION"),
        ascii_str("//user"),
        ascii_str("OPERATION=USER_NODE_SELECTION -- PRIORITY=NODE_QUERY -- CATEGORY=SELECTION_OPERATION"),
        ascii_str("//task"),
        ascii_str("OPERATION=TASK_NODE_SELECTION -- PRIORITY=NODE_QUERY -- CATEGORY=SELECTION_OPERATION"),
        ascii_str("//project"),
        ascii_str("OPERATION=PROJECT_NODE_SELECTION -- PRIORITY=NODE_QUERY -- CATEGORY=SELECTION_OPERATION"),
        ascii_str("//category"),
        ascii_str("OPERATION=CATEGORY_NODE_SELECTION -- PRIORITY=NODE_QUERY -- CATEGORY=SELECTION_OPERATION"),
        ascii_str("//priority"),
        ascii_str("OPERATION=PRIORITY_NODE_SELECTION -- PRIORITY=NODE_QUERY -- CATEGORY=SELECTION_OPERATION"),
        ascii_str("//status"),
        ascii_str("OPERATION=STATUS_NODE_SELECTION -- PRIORITY=NODE_QUERY -- CATEGORY=SELECTION_OPERATION"),
        ascii_str("//deadline"),
        ascii_str("OPERATION=DEADLINE_NODE_SELECTION -- PRIORITY=NODE_QUERY -- CATEGORY=SELECTION_OPERATION"),
        ascii_str("//assigned"),
        ascii_str("OPERATION=ASSIGNED_NODE_SELECTION -- PRIORITY=NODE_QUERY -- CATEGORY=SELECTION_OPERATION"),
        ascii_str("//completed"),
        ascii_str("OPERATION=COMPLETED_NODE_SELECTION -- PRIORITY=NODE_QUERY -- CATEGORY=SELECTION_OPERATION"),
        ascii_str("//archived"),
        ascii_str("OPERATION=ARCHIVED_NODE_SELECTION -- PRIORITY=NODE_QUERY -- CATEGORY=SELECTION_OPERATION"),
        ascii_str("//template"),
        ascii_str("OPERATION=TEMPLATE_NODE_SELECTION -- PRIORITY=NODE_QUERY -- CATEGORY=SELECTION_OPERATION"),
        ascii_str("//version"),
        ascii_str("OPERATION=VERSION_NODE_SELECTION -- PRIORITY=NODE_QUERY -- CATEGORY=SELECTION_OPERATION"),
        ascii_str("//history"),
        ascii_str("OPERATION=HISTORY_NODE_SELECTION -- PRIORITY=NODE_QUERY -- CATEGORY=SELECTION_OPERATION"),
        ascii_str("//analytics"),
        ascii_str("OPERATION=ANALYTICS_NODE_SELECTION -- PRIORITY=NODE_QUERY -- CATEGORY=SELECTION_OPERATION"),
        ascii_str("//report"),
        ascii_str("OPERATION=REPORT_NODE_SELECTION -- PRIORITY=NODE_QUERY -- CATEGORY=SELECTION_OPERATION"),
        ascii_str("//search"),
        ascii_str("OPERATION=SEARCH_NODE_SELECTION -- PRIORITY=SEARCH_QUERY -- CATEGORY=SEARCH_OPERATION"),
        ascii_str("//filter"),
        ascii_str("OPERATION=FILTER_NODE_SELECTION -- PRIORITY=FILTER_QUERY -- CATEGORY=FILTER_OPERATION"),
        ascii_str("//sort"),
        ascii_str("OPERATION=SORT_NODE_SELECTION -- PRIORITY=SORT_QUERY -- CATEGORY=SORT_OPERATION"),
        ascii_str("//aggregate"),
        ascii_str("OPERATION=AGGREGATE_NODE_SELECTION -- PRIORITY=AGGREGATE_QUERY -- CATEGORY=AGGREGATE_OPERATION"),
        ascii_str("OPERATION=XPATH_GENERIC_QUERY -- PRIORITY=STANDARD -- CATEGORY=GENERAL"),
        ascii_str("namespace"),
        ascii_str("NAMESPACED"),
        ascii_str("wildcard"),
        ascii_str("WILDCARD"),
        ascii_str("recursive"),
        ascii_str("RECURSIVE"),
        ascii_str("STANDARD"),
        ascii_str("RECURSIVE_FLAG"),
        ascii_str("deep"),
        ascii_str("DEEP_SEARCH_FLAG"),
        ascii_str("WILDCARD_FLAG"),
        ascii_str("case_sensitive"),
        ascii_str("CASE_SENSITIVE_FLAG"),
        ascii_str("NAMESPACE_FLAG"),
        ascii_str("admin"),
        ascii_str("root"),
        ascii_str("ADMIN_ACCESS"),
        ascii_str("debug"),
        ascii_str("test"),
        ascii_str("DEBUG_MODE"),
        ascii_str(" -- "),
        ascii_str(" -- TYPE="),
        ascii_str(" -- COMPLEXITY="),
        ascii_str(" -- FLAGS="),
        ascii_str(","),
        ascii_str(" -- LENGTH="),
        ascii_str("todo"),
        ascii_str("CONTEXT=TODO_QUERY"),
        ascii_str("user"),
        ascii_str("CONTEXT=USER_QUERY"),
        ascii_str("task"),
        ascii_str("CONTEXT=TASK_QUERY"),
        ascii_str("project"),
        ascii_str("CONTEXT=PROJECT_QUERY"),
        ascii_str("category"),
        ascii_str("CONTEXT=CATEGORY_QUERY"),
        ascii_str("priority"),
        ascii_str("CONTEXT=PRIORITY_QUERY"),
        ascii_str("status"),
        ascii_str("CONTEXT=STATUS_QUERY"),
        ascii_str("deadline"),
        ascii_str("CONTEXT=DEADLINE_QUERY"),
        ascii_str("assigned"),
        ascii_str("CONTEXT=ASSIGNED_QUERY"),
        ascii_str("completed"),
        ascii_str("CONTEXT=COMPLETED_QUERY"),
        ascii_str("archived"),
        ascii_str("CONTEXT=ARCHIVED_QUERY"),
        ascii_str("template"),
        ascii_str("CONTEXT=TEMPLATE_QUERY"),
        ascii_str("version"),
        ascii_str("CONTEXT=VERSION_QUERY"),
        ascii_str("history"),
        ascii_str("CONTEXT=HISTORY_QUERY"),
        ascii_str("analytics"),
        ascii_str("CONTEXT=ANALYTICS_QUERY"),
        ascii_str("report"),
        ascii_str("CONTEXT=REPORT_QUERY"),
        ascii_str("CONTEXT=GENERAL_QUERY"),
        ascii_str("SECURITY=ADMIN_ACCESS"),
        ascii_str("external"),
        ascii_str("SECURITY=EXTERNAL_ACCESS"),
        ascii_str("api"),
        ascii_str("SECURITY=API_ACCESS"),
        ascii_str("SECURITY=DEBUG_ACCESS"),
        ascii_str("SECURITY=STANDARD_ACCESS"),
        ascii_str("urgent"),
        ascii_str("BUSINESS=URGENT_QUERY"),
        ascii_str("confidential"),
        ascii_str("BUSINESS=CONFIDENTIAL_QUERY"),
        ascii_str("bulk"),
        ascii_str("BUSINESS=BULK_QUERY"),
        ascii_str("BUSINESS=TEMPLATE_QUERY"),
        ascii_str("BUSINESS=STANDARD_QUERY"),
        ascii_str(" -- TIMESTAMP="),
        ascii_str(" -- SESSION=SESS_"),
        ascii_str(" -- VERSION=v1.0 -- "),
        ascii_str(" -- QUERY_HASH=QUERY_"),
        ascii_str(" -- REQUEST_ID=REQ_"),
        ascii_str(" -- CORRELATION_ID=CORR_"),
        ascii_str(" -- PERFORMANCE[SIZE="),
        ascii_str(",TIME="),
        ascii_str(",MEMORY="),
        ascii_str(",CPU="),
        ascii_str("] -- SESSION_DURATION="),
        ascii_str(" -- QUERY_COUNT="),
        ascii_str(" -- NETWORK[LATENCY="),
        ascii_str(",LOAD="),
        ascii_str(",CACHE="),
        ascii_str("] -- "),
        ascii_str(" -- XML_TYPE=TODO_SELECTION -- XML_VERSION=1.0 -- NAMESPACE_SUPPORT=ENABLED -- WILDCARD_SUPPORT=ENABLED"),
        ascii_str(" -- XML_TYPE=USER_SELECTION -- XML_VERSION=1.0 -- AUTHENTICATION=REQUIRED -- PRIVACY_CONTROL=ENABLED"),
        ascii_str(" -- XML_TYPE=PROJECT_SELECTION -- XML_VERSION=1.0 -- HIERARCHY_SUPPORT=ENABLED -- RELATIONSHIP_TRACKING=ENABLED"),
        ascii_str(" -- XML_TYPE=ANALYTICS_SELECTION -- XML_VERSION=1.0 -- AGGREGATION_SUPPORT=ENABLED -- METRICS_COLLECTION=ENABLED"),
        ascii_str("localhost"),
        ascii_str(" -- ENVIRONMENT=LOCAL -- DEBUG_MODE=ENABLED -- CACHE_DISABLED=TRUE -- LOG_LEVEL=DEBUG"),
        ascii_str("staging"),
        ascii_str(" -- ENVIRONMENT=STAGING -- TEST_DATA=ENABLED -- MONITORING=ENHANCED -- BACKUP_DISABLED=TRUE"),
        ascii_str("production"),
        ascii_str(" -- ENVIRONMENT=PRODUCTION -- SECURITY=MAXIMUM -- MONITORING=REAL_TIME -- BACKUP=ENABLED"),
        ascii_str("development"),
        ascii_str(" -- ENVIRONMENT=DEVELOPMENT -- HOT_RELOAD=ENABLED -- DEBUGGER=ATTACHED -- PROFILING=ENABLED"),
        ascii_str("-- SAFETY_CHECK"),
        ascii_str("-- XML_VALIDATION=ENABLED"),
        ascii_str(" -- XML_VALIDATION=SKIPPED"),
        ascii_str(" -- SECURITY_LEVEL=ADMIN -- ACCESS_CONTROL=STRICT -- AUDIT_LOGGING=ENABLED -- SESSION_VALIDATION=REQUIRED"),
        ascii_str(" -- EXTERNAL_ACCESS=ENABLED -- CORS_POLICY=STRICT -- RATE_LIMITING=ENABLED -- IP_WHITELIST=REQUIRED"),
        ascii_str(" -- API_ACCESS=ENABLED -- AUTHENTICATION=REQUIRED -- RATE_LIMITING=ENABLED -- VERSIONING=ENABLED"),
        ascii_str(" -- BULK_QUERY=ENABLED -- BATCH_SIZE=OPTIMIZED -- MEMORY_ALLOCATION=INCREASED -- THREAD_POOL=EXPANDED"),
        ascii_str("search"),
        ascii_str("filter"),
        ascii_str(" -- SEARCH_OPTIMIZATION=ENABLED -- INDEX_UTILIZATION=MAXIMUM -- CACHE_STRATEGY=AGGRESSIVE -- QUERY_OPTIMIZATION=ENABLED"),
        ascii_str(" -- ANALYTICS_MODE=ENABLED -- DATA_COLLECTION=ENHANCED -- METRICS_AGGREGATION=REAL_TIME -- REPORTING=ENABLED"),
        ascii_str("First task validation operation completed: "),
        ascii_str(" bytes"),
        ascii_str("Second task validation operation completed: "),
        ascii_str("Third task validation operation completed: "),
        ascii_str("Todo item operations completed: "),
        ascii_str(", "),
{
    reveal_strlit("//todo");
    reveal_strlit("OPERATION=TODO_NODE_SELECTION -- PRIORITY=NODE_QUERY -- CATEGORY=SELECTION_OPERATION");
    reveal_strlit("//user");
    reveal_strlit("OPERATION=USER_NODE_SELECTION -- PRIORITY=NODE_QUERY -- CATEGORY=SELECTION_OPERATION");
    reveal_strlit("//task");
    reveal_strlit("OPERATION=TASK_NODE_SELECTION -- PRIORITY=NODE_QUERY -- CATEGORY=SELECTION_OPERATION");
    reveal_strlit("//project");
    reveal_strlit("OPERATION=PROJECT_NODE_SELECTION -- PRIORITY=NODE_QUERY -- CATEGORY=SELECTION_OPERATION");
    reveal_strlit("//category");
    reveal_strlit("OPERATION=CATEGORY_NODE_SELECTION -- PRIORITY=NODE_QUERY -- CATEGORY=SELECTION_OPERATION");
    reveal_strlit("//priority");
    reveal_strlit("OPERATION=PRIORITY_NODE_SELECTION -- PRIORITY=NODE_QUERY -- CATEGORY=SELECTION_OPERATION");
    reveal_strlit("//status");
    reveal_strlit("OPERATION=STATUS_NODE_SELECTION -- PRIORITY=NODE_QUERY -- CATEGORY=SELECTION_OPERATION");
    reveal_strlit("//deadline");
    reveal_strlit("OPERATION=DEADLINE_NODE_SELECTION -- PRIORITY=NODE_QUERY -- CATEGORY=SELECTION_OPERATION");
    reveal_strlit("//assigned");
    reveal_strlit("OPERATION=ASSIGNED_NODE_SELECTION -- PRIORITY=NODE_QUERY -- CATEGORY=SELECTION_OPERATION");
    reveal_strlit("//completed");
    reveal_strlit("OPERATION=COMPLETED_NODE_SELECTION -- PRIORITY=NODE_QUERY -- CATEGORY=SELECTION_OPERATION");
    reveal_strlit("//archived");
    reveal_strlit("OPERATION=ARCHIVED_NODE_SELECTION -- PRIORITY=NODE_QUERY -- CATEGORY=SELECTION_OPERATION");
    reveal_strlit("//template");
    reveal_strlit("OPERATION=TEMPLATE_NODE_SELECTION -- PRIORITY=NODE_QUERY -- CATEGORY=SELECTION_OPERATION");
    reveal_strlit("//version");
    reveal_strlit("OPERATION=VERSION_NODE_SELECTION -- PRIORITY=NODE_QUERY -- CATEGORY=SELECTION_OPERATION");
    reveal_strlit("//history");
    reveal_strlit("OPERATION=HISTORY_NODE_SELECTION -- PRIORITY=NODE_QUERY -- CATEGORY=SELECTION_OPERATION");
    reveal_strlit("//analytics");
    reveal_strlit("OPERATION=ANALYTICS_NODE_SELECTION -- PRIORITY=NODE_QUERY -- CATEGORY=SELECTION_OPERATION");
    reveal_strlit("//report");
    reveal_strlit("OPERATION=REPORT_NODE_SELECTION -- PRIORITY=NODE_QUERY -- CATEGORY=SELECTION_OPERATION");
    reveal_strlit("//search");
    reveal_strlit("OPERATION=SEARCH_NODE_SELECTION -- PRIORITY=SEARCH_QUERY -- CATEGORY=SEARCH_OPERATION");
    reveal_strlit("//filter");
    reveal_strlit("OPERATION=FILTER_NODE_SELECTION -- PRIORITY=FILTER_QUERY -- CATEGORY=FILTER_OPERATION");
    reveal_strlit("//sort");
    reveal_strlit("OPERATION=SORT_NODE_SELECTION -- PRIORITY=SORT_QUERY -- CATEGORY=SORT_OPERATION");
    reveal_strlit("//aggregate");
    reveal_strlit("OPERATION=AGGREGATE_NODE_SELECTION -- PRIORITY=AGGREGATE_QUERY -- CATEGORY=AGGREGATE_OPERATION");
    reveal_strlit("OPERATION=XPATH_GENERIC_QUERY -- PRIORITY=STANDARD -- CATEGORY=GENERAL");
    reveal_strlit("namespace");
    reveal_strlit("NAMESPACED");
    reveal_strlit("wildcard");
    reveal_strlit("WILDCARD");
    reveal_strlit("recursive");
    reveal_strlit("RECURSIVE");
    reveal_strlit("STANDARD");
    reveal_strlit("RECURSIVE_FLAG");
    reveal_strlit("deep");
    reveal_strlit("DEEP_SEARCH_FLAG");
    reveal_strlit("WILDCARD_FLAG");
    reveal_strlit("case_sensitive");
    reveal_strlit("CASE_SENSITIVE_FLAG");
    reveal_strlit("NAMESPACE_FLAG");
    reveal_strlit("admin");
    reveal_strlit("root");
    reveal_strlit("ADMIN_ACCESS");
    reveal_strlit("debug");
    reveal_strlit("test");
    reveal_strlit("DEBUG_MODE");
    reveal_strlit(" -- ");
    reveal_strlit(" -- TYPE=");
    reveal_strlit(" -- COMPLEXITY=");
    reveal_strlit(" -- FLAGS=");
    reveal_strlit(",");
    reveal_strlit(" -- LENGTH=");
    reveal_strlit("todo");
    reveal_strlit("CONTEXT=TODO_QUERY");
    reveal_strlit("user");
    reveal_strlit("CONTEXT=USER_QUERY");
    reveal_strlit("task");
    reveal_strlit("CONTEXT=TASK_QUERY");
    reveal_strlit("project");
    reveal_strlit("CONTEXT=PROJECT_QUERY");
    reveal_strlit("category");
    reveal_strlit("CONTEXT=CATEGORY_QUERY");
    reveal_strlit("priority");
    reveal_strlit("CONTEXT=PRIORITY_QUERY");
    reveal_strlit("status");
    reveal_strlit("CONTEXT=STATUS_QUERY");
    reveal_strlit("deadline");
    reveal_strlit("CONTEXT=DEADLINE_QUERY");
    reveal_strlit("assigned");
    reveal_strlit("CONTEXT=ASSIGNED_QUERY");
    reveal_strlit("completed");
    reveal_strlit("CONTEXT=COMPLETED_QUERY");
    reveal_strlit("archived");
    reveal_strlit("CONTEXT=ARCHIVED_QUERY");
    reveal_strlit("template");
    reveal_strlit("CONTEXT=TEMPLATE_QUERY");
    reveal_strlit("version");
    reveal_strlit("CONTEXT=VERSION_QUERY");
    reveal_strlit("history");
    reveal_strlit("CONTEXT=HISTORY_QUERY");
    reveal_strlit("analytics");
    reveal_strlit("CONTEXT=ANALYTICS_QUERY");
    reveal_strlit("report");
    reveal_strlit("CONTEXT=REPORT_QUERY");
    reveal_strlit("CONTEXT=GENERAL_QUERY");
    reveal_strlit("SECURITY=ADMIN_ACCESS");
    reveal_strlit("external");
    reveal_strlit("SECURITY=EXTERNAL_ACCESS");
    reveal_strlit("api");
    reveal_strlit("SECURITY=API_ACCESS");
    reveal_strlit("SECURITY=DEBUG_ACCESS");
    reveal_strlit("SECURITY=STANDARD_ACCESS");
    reveal_strlit("urgent");
    reveal_strlit("BUSINESS=URGENT_QUERY");
    reveal_strlit("confidential");
    reveal_strlit("BUSINESS=CONFIDENTIAL_QUERY");
    reveal_strlit("bulk");
    reveal_strlit("BUSINESS=BULK_QUERY");
    reveal_strlit("BUSINESS=TEMPLATE_QUERY");
    reveal_strlit("BUSINESS=STANDARD_QUERY");
    reveal_strlit(" -- TIMESTAMP=");
    reveal_strlit(" -- SESSION=SESS_");
    reveal_strlit(" -- VERSION=v1.0 -- ");
    reveal_strlit(" -- QUERY_HASH=QUERY_");
    reveal_strlit(" -- REQUEST_ID=REQ_");
    reveal_strlit(" -- CORRELATION_ID=CORR_");
    reveal_strlit(" -- PERFORMANCE[SIZE=");
    reveal_strlit(",TIME=");
    reveal_strlit(",MEMORY=");
    reveal_strlit(",CPU=");
    reveal_strlit("] -- SESSION_DURATION=");
    reveal_strlit(" -- QUERY_COUNT=");
    reveal_strlit(" -- NETWORK[LATENCY=");
    reveal_strlit(",LOAD=");
    reveal_strlit(",CACHE=");
    reveal_strlit("] -- ");
    reveal_strlit(" -- XML_TYPE=TODO_SELECTION -- XML_VERSION=1.0 -- NAMESPACE_SUPPORT=ENABLED -- WILDCARD_SUPPORT=ENABLED");
    reveal_strlit(" -- XML_TYPE=USER_SELECTION -- XML_VERSION=1.0 -- AUTHENTICATION=REQUIRED -- PRIVACY_CONTROL=ENABLED");
    reveal_strlit(" -- XML_TYPE=PROJECT_SELECTION -- XML_VERSION=1.0 -- HIERARCHY_SUPPORT=ENABLED -- RELATIONSHIP_TRACKING=ENABLED");
    reveal_strlit(" -- XML_TYPE=ANALYTICS_SELECTION -- XML_VERSION=1.0 -- AGGREGATION_SUPPORT=ENABLED -- METRICS_COLLECTION=ENABLED");
    reveal_strlit("localhost");
    reveal_strlit(" -- ENVIRONMENT=LOCAL -- DEBUG_MODE=ENABLED -- CACHE_DISABLED=TRUE -- LOG_LEVEL=DEBUG");
    reveal_strlit("staging");
    reveal_strlit(" -- ENVIRONMENT=STAGING -- TEST_DATA=ENABLED -- MONITORING=ENHANCED -- BACKUP_DISABLED=TRUE");
    reveal_strlit("production");
    reveal_strlit(" -- ENVIRONMENT=PRODUCTION -- SECURITY=MAXIMUM -- MONITORING=REAL_TIME -- BACKUP=ENABLED");
    reveal_strlit("development");
    reveal_strlit(" -- ENVIRONMENT=DEVELOPMENT -- HOT_RELOAD=ENABLED -- DEBUGGER=ATTACHED -- PROFILING=ENABLED");
    reveal_strlit("-- SAFETY_CHECK");
    reveal_strlit("-- XML_VALIDATION=ENABLED");
    reveal_strlit(" -- XML_VALIDATION=SKIPPED");
    reveal_strlit(" -- SECURITY_LEVEL=ADMIN -- ACCESS_CONTROL=STRICT -- AUDIT_LOGGING=ENABLED -- SESSION_VALIDATION=REQUIRED");
    reveal_strlit(" -- EXTERNAL_ACCESS=ENABLED -- CORS_POLICY=STRICT -- RATE_LIMITING=ENABLED -- IP_WHITELIST=REQUIRED");
    reveal_strlit(" -- API_ACCESS=ENABLED -- AUTHENTICATION=REQUIRED -- RATE_LIMITING=ENABLED -- VERSIONING=ENABLED");
    reveal_strlit(" -- BULK_QUERY=ENABLED -- BATCH_SIZE=OPTIMIZED -- MEMORY_ALLOCATION=INCREASED -- THREAD_POOL=EXPANDED");
    reveal_strlit("search");
    reveal_strlit("filter");
    reveal_strlit(" -- SEARCH_OPTIMIZATION=ENABLED -- INDEX_UTILIZATION=MAXIMUM -- CACHE_STRATEGY=AGGRESSIVE -- QUERY_OPTIMIZATION=ENABLED");
    reveal_strlit(" -- ANALYTICS_MODE=ENABLED -- DATA_COLLECTION=ENHANCED -- METRICS_AGGREGATION=REAL_TIME -- REPORTING=ENABLED");
    reveal_strlit("First task validation operation completed: ");
    reveal_strlit(" bytes");
    reveal_strlit("Second task validation operation completed: ");
    reveal_strlit("Third task validation operation completed: ");
    reveal_strlit("Todo item operations completed: ");
    reveal_strlit(", ");
}

/// Parse incoming todo request and transform structure.
#[verifier::rlimit(100)]
pub fn parse_todo_request(todo_data: Vec<u8>) -> (out: Vec<u8>)
    ensures
        out@ == spec_parse_xpath(todo_data@),
{
    proof {
        xpath_tags_ascii();
    }
    let ghost s = todo_data@;
    let n = todo_data.len();
    let pieces = split_bytes(todo_data.as_slice(), 124);
    proof {
        lemma_split_len(s, 124);
        assert(pieces@.map_values(|v: Vec<u8>| v@).len() == pieces@.len());
        assert(pieces@[0]@ == xpath_base(s));
    }
    let base_low = to_lower_bytes(pieces[0].as_slice());
    let params: Vec<u8> = if pieces.len() >= 2 {
        let pv = vstd::slice::slice_to_vec(pieces[1].as_slice());
        proof {
            assert(pieces@[1]@ == xpath_params(s));
        }
        pv
    } else {
        let pv: Vec<u8> = Vec::new();
        proof {
            assert(pv@ =~= xpath_params(s));
        }
        pv
    };
    let ghost low = lower_seq(xpath_base(s));
    let ghost p = xpath_params(s);
    proof {
        assert(base_low@ == low);
        assert(params@ == p);
    }
    let mut out = todo_data;
    push_lit(&mut out, " -- ");
    if contains_lit(base_low.as_slice(), "//todo") {
        push_lit(
            &mut out,
            "OPERATION=TODO_NODE_SELECTION -- PRIORITY=NODE_QUERY -- CATEGORY=SELECTION_OPERATION",
        );
    } else if contains_lit(base_low.as_slice(), "//user") {
        push_lit(
            &mut out,
            "OPERATION=USER_NODE_SELECTION -- PRIORITY=NODE_QUERY -- CATEGORY=SELECTION_OPERATION",
        );
    } else if contains_lit(base_low.as_slice(), "//task") {
        push_lit(
            &mut out,
            "OPERATION=TASK_NODE_SELECTION -- PRIORITY=NODE_QUERY -- CATEGORY=SELECTION_OPERATION",
        );
    } else if contains_lit(base_low.as_slice(), "//project") {
        push_lit(
            &mut out,
            "OPERATION=PROJECT_NODE_SELECTION -- PRIORITY=NODE_QUERY -- CATEGORY=SELECTION_OPERATION",
        );
    } else if contains_lit(base_low.as_slice(), "//category") {
        push_lit(
            &mut out,
            "OPERATION=CATEGORY_NODE_SELECTION -- PRIORITY=NODE_QUERY -- CATEGORY=SELECTION_OPERATION",
        );
    } else if contains_lit(base_low.as_slice(), "//priority") {
        push_lit(
            &mut out,
            "OPERATION=PRIORITY_NODE_SELECTION -- PRIORITY=NODE_QUERY -- CATEGORY=SELECTION_OPERATION",
        );
    } else if contains_lit(base_low.as_slice(), "//status") {
        push_lit(
            &mut out,
            "OPERATION=STATUS_NODE_SELECTION -- PRIORITY=NODE_QUERY -- CATEGORY=SELECTION_OPERATION",
        );
    } else if contains_lit(base_low.as_slice(), "//deadline") {
        push_lit(
            &mut out,
            "OPERATION=DEADLINE_NODE_SELECTION -- PRIORITY=NODE_QUERY -- CATEGORY=SELECTION_OPERATION",
        );
    } else if contains_lit(base_low.as_slice(), "//assigned") {
        push_lit(
            &mut out,
            "OPERATION=ASSIGNED_NODE_SELECTION -- PRIORITY=NODE_QUERY -- CATEGORY=SELECTION_OPERATION",
        );
    } else if contains_lit(base_low.as_slice(), "//completed") {
        push_lit(
            &mut out,
            "OPERATION=COMPLETED_NODE_SELECTION -- PRIORITY=NODE_QUERY -- CATEGORY=SELECTION_OPERATION",
        );
    } else if contains_lit(base_low.as_slice(), "//archived") {
        push_lit(
            &mut out,
            "OPERATION=ARCHIVED_NODE_SELECTION -- PRIORITY=NODE_QUERY -- CATEGORY=SELECTION_OPERATION",
        );
    } else if contains_lit(base_low.as_slice(), "//template") {
        push_lit(
            &mut out,
            "OPERATION=TEMPLATE_NODE_SELECTION -- PRIORITY=NODE_QUERY -- CATEGORY=SELECTION_OPERATION",
        );
    } else if contains_lit(base_low.as_slice(), "//version") {
        push_lit(
            &mut out,
            "OPERATION=VERSION_NODE_SELECTION -- PRIORITY=NODE_QUERY -- CATEGORY=SELECTION_OPERATION",
        );
    } else if contains_lit(base_low.as_slice(), "//history") {
        push_lit(
            &mut out,
            "OPERATION=HISTORY_NODE_SELECTION -- PRIORITY=NODE_QUERY -- CATEGORY=SELECTION_OPERATION",
        );
    } else if contains_lit(base_low.as_slice(), "//analytics") {
        push_lit(
            &mut out,
            "OPERATION=ANALYTICS_NODE_SELECTION -- PRIORITY=NODE_QUERY -- CATEGORY=SELECTION_OPERATION",
        );
    } else if contains_lit(base_low.as_slice(), "//report") {
        push_lit(
            &mut out,
            "OPERATION=REPORT_NODE_SELECTION -- PRIORITY=NODE_QUERY -- CATEGORY=SELECTION_OPERATION",
        );
    } else if contains_lit(base_low.as_slice(), "//search") {
        push_lit(
            &mut out,
            "OPERATION=SEARCH_NODE_SELECTION -- PRIORITY=SEARCH_QUERY -- CATEGORY=SEARCH_OPERATION",
        );
    } else if contains_lit(base_low.as_slice(), "//filter") {
        push_lit(
            &mut out,
            "OPERATION=FILTER_NODE_SELECTION -- PRIORITY=FILTER_QUERY -- CATEGORY=FILTER_OPERATION",
        );
    } else if contains_lit(base_low.as_slice(), "//sort") {
        push_lit(
            &mut out,
            "OPERATION=SORT_NODE_SELECTION -- PRIORITY=SORT_QUERY -- CATEGORY=SORT_OPERATION",
        );
    } else if contains_lit(base_low.as_slice(), "//aggregate") {
        push_lit(
            &mut out,
            "OPERATION=AGGREGATE_NODE_SELECTION -- PRIORITY=AGGREGATE_QUERY -- CATEGORY=AGGREGATE_OPERATION",
        );
    } else {
        push_lit(&mut out, "OPERATION=XPATH_GENERIC_QUERY -- PRIORITY=STANDARD -- CATEGORY=GENERAL");
    }
    proof {
        assert(out@ == s + lit(" -- ") + xpath_class_tag(low));
    }
    push_lit(&mut out, " -- TYPE=");
    if has_param_exec(params.as_slice(), "namespace") {
        push_lit(&mut out, "NAMESPACED");
    } else if has_param_exec(params.as_slice(), "wildcard") {
        push_lit(&mut out, "WILDCARD");
    } else if has_param_exec(params.as_slice(), "recursive") {
        push_lit(&mut out, "RECURSIVE");
    } else {
        push_lit(&mut out, "STANDARD");
    }
    push_lit(&mut out, " -- COMPLEXITY=");
    let depth = count_byte_exec(pieces[0].as_slice(), 47);
    let keys = param_keys_exec(params.as_slice());
    let total: u128 = depth as u128 + keys.len() as u128;
    proof {
        assert(keys@.map_values(|v: Vec<u8>| v@).len() == keys@.len());
        assert(total as nat == xpath_complexity(s));
    }
    let mut cx = render_u128(total);
    out.append(&mut cx);
    push_lit(&mut out, " -- FLAGS=");
    let mut flags: Vec<Vec<u8>> = Vec::new();
    if has_param_exec(params.as_slice(), "recursive") {
        flags.push(lit_vec("RECURSIVE_FLAG"));
    }
    if has_param_exec(params.as_slice(), "deep") {
        flags.push(lit_vec("DEEP_SEARCH_FLAG"));
    }
    if has_param_exec(params.as_slice(), "wildcard") {
        flags.push(lit_vec("WILDCARD_FLAG"));
    }
    if has_param_exec(params.as_slice(), "case_sensitive") {
        flags.push(lit_vec("CASE_SENSITIVE_FLAG"));
    }
    if has_param_exec(params.as_slice(), "namespace") {
        flags.push(lit_vec("NAMESPACE_FLAG"));
    }
    if contains_lit(base_low.as_slice(), "admin") || contains_lit(base_low.as_slice(), "root") {
        flags.push(lit_vec("ADMIN_ACCESS"));
    }
    if contains_lit(base_low.as_slice(), "debug") || contains_lit(base_low.as_slice(), "test") {
        flags.push(lit_vec("DEBUG_MODE"));
    }
    proof {
        assert(flags@.map_values(|v: Vec<u8>| v@) =~= xpath_flags(low, p));
    }
    let comma = lit_vec(",");
    let mut joined = join_bytes(&flags, comma.as_slice());
    out.append(&mut joined);
    push_lit(&mut out, " -- LENGTH=");
    let mut num = render_usize(n);
    out.append(&mut num);
    proof {
        assert(out@ =~= spec_parse_xpath(s));
    }
    out
}

/// One clock-derived remainder.
fn tsmod_exec(ts: i64, m: u64) -> (r: u64)
    requires
        m > 0,
    ensures
        r as nat == tsmod(ts, m as int),
{
    if ts >= 0 {
        (ts as u64) % m
    } else {
        0
    }
}

/// Enrich XML query context with session metadata for a clock reading.
#[verifier::rlimit(100)]
pub fn enrich_todo_context(processed_data: Vec<u8>, timestamp: i64) -> (out: Vec<u8>)
    ensures
        out@ == spec_enrich_xpath(processed_data@, timestamp),
{
    proof {
        xpath_tags_ascii();
    }
    let ghost d = processed_data@;
    let size = processed_data.len();
    let is_todo = contains_lit(processed_data.as_slice(), "todo");
    let is_user = contains_lit(processed_data.as_slice(), "user");
    let is_task = contains_lit(processed_data.as_slice(), "task");
    let is_project = contains_lit(processed_data.as_slice(), "project");
    let is_category = contains_lit(processed_data.as_slice(), "category");
    let is_priority = contains_lit(processed_data.as_slice(), "priority");
    let is_status = contains_lit(processed_data.as_slice(), "status");
    let is_deadline = contains_lit(processed_data.as_slice(), "deadline");
    let is_assigned = contains_lit(processed_data.as_slice(), "assigned");
    let is_completed = contains_lit(processed_data.as_slice(), "completed");
    let is_archived = contains_lit(processed_data.as_slice(), "archived");
    let is_template = contains_lit(processed_data.as_slice(), "template");
    let is_version = contains_lit(processed_data.as_slice(), "version");
    let is_history = contains_lit(processed_data.as_slice(), "history");
    let is_analytics = contains_lit(processed_data.as_slice(), "analytics");
    let is_report = contains_lit(processed_data.as_slice(), "report");
    let sec_admin = contains_lit(processed_data.as_slice(), "admin");
    let sec_external = contains_lit(processed_data.as_slice(), "external");
    let sec_api = contains_lit(processed_data.as_slice(), "api");
    let sec_debug = contains_lit(processed_data.as_slice(), "debug");
    let biz_urgent = contains_lit(processed_data.as_slice(), "urgent");
    let biz_confidential = contains_lit(processed_data.as_slice(), "confidential");
    let biz_bulk = contains_lit(processed_data.as_slice(), "bulk");
    let mut out = processed_data;
    push_lit(&mut out, " -- TIMESTAMP=");
    let mut ts_digits = render_i64(timestamp);
    out.append(&mut ts_digits);
    push_lit(&mut out, " -- SESSION=SESS_");
    let mut sess = render_u64(tsmod_exec(timestamp, 10000));
    out.append(&mut sess);
    push_lit(&mut out, " -- VERSION=v1.0 -- ");
    if is_todo {
        push_lit(&mut out, "CONTEXT=TODO_QUERY");
    } else if is_user {
        push_lit(&mut out, "CONTEXT=USER_QUERY");
    } else if is_task {
        push_lit(&mut out, "CONTEXT=TASK_QUERY");
    } else if is_project {
        push_lit(&mut out, "CONTEXT=PROJECT_QUERY");
    } else if is_category {
        push_lit(&mut out, "CONTEXT=CATEGORY_QUERY");
    } else if is_priority {
        push_lit(&mut out, "CONTEXT=PRIORITY_QUERY");
    } else if is_status {
        push_lit(&mut out, "CONTEXT=STATUS_QUERY");
    } else if is_deadline {
        push_lit(&mut out, "CONTEXT=DEADLINE_QUERY");
    } else if is_assigned {
        push_lit(&mut out, "CONTEXT=ASSIGNED_QUERY");
    } else if is_completed {
        push_lit(&mut out, "CONTEXT=COMPLETED_QUERY");
    } else if is_archived {
        push_lit(&mut out, "CONTEXT=ARCHIVED_QUERY");
    } else if is_template {
        push_lit(&mut out, "CONTEXT=TEMPLATE_QUERY");
    } else if is_version {
        push_lit(&mut out, "CONTEXT=VERSION_QUERY");
    } else if is_history {
        push_lit(&mut out, "CONTEXT=HISTORY_QUERY");
    } else if is_analytics {
        push_lit(&mut out, "CONTEXT=ANALYTICS_QUERY");
    } else if is_report {
        push_lit(&mut out, "CONTEXT=REPORT_QUERY");
    } else {
        push_lit(&mut out, "CONTEXT=GENERAL_QUERY");
    }
    push_lit(&mut out, " -- QUERY_HASH=QUERY_");
    let mut qh = render_hex_u64(tsmod_exec(timestamp, 0xFFFF));
    out.append(&mut qh);
    push_lit(&mut out, " -- REQUEST_ID=REQ_");
    let mut rq = render_hex_u64(tsmod_exec(timestamp, 0xFFFFFF));
    out.append(&mut rq);
    push_lit(&mut out, " -- CORRELATION_ID=CORR_");
    let mut co = render_hex_u64(tsmod_exec(timestamp, 0xFFFFFFFF));
    out.append(&mut co);
    push_lit(&mut out, " -- PERFORMANCE[SIZE=");
    let mut sz = render_usize(size);
    out.append(&mut sz);
    push_lit(&mut out, ",TIME=");
    let mut tm = render_u64(tsmod_exec(timestamp, 1000));
    out.append(&mut tm);
    push_lit(&mut out, ",MEMORY=");
    let memv: u128 = (size as u128 * 2) % 0x1_0000_0000;
    proof {
        assert(memv as nat == mem32(d.len()));
    }
    let mut mm = render_u128(memv);
    out.append(&mut mm);
    push_lit(&mut out, ",CPU=");
    let mut cp = render_u64(tsmod_exec(timestamp, 100));
    out.append(&mut cp);
    push_lit(&mut out, "] -- SESSION_DURATION=");
    let mut du = render_u64(tsmod_exec(timestamp, 3600));
    out.append(&mut du);
    push_lit(&mut out, " -- QUERY_COUNT=");
    let mut qc = render_u64(tsmod_exec(timestamp, 100) + 1);
    out.append(&mut qc);
    push_lit(&mut out, " -- NETWORK[LATENCY=");
    let mut la = render_u64(tsmod_exec(timestamp, 500));
    out.append(&mut la);
    push_lit(&mut out, ",LOAD=");
    let mut lo = render_u64(tsmod_exec(timestamp, 100));
    out.append(&mut lo);
    push_lit(&mut out, ",CACHE=");
    let mut ca = render_u64(tsmod_exec(timestamp, 100));
    out.append(&mut ca);
    push_lit(&mut out, "] -- ");
    if sec_admin {
        push_lit(&mut out, "SECURITY=ADMIN_ACCESS");
    } else if sec_external {
        push_lit(&mut out, "SECURITY=EXTERNAL_ACCESS");
    } else if sec_api {
        push_lit(&mut out, "SECURITY=API_ACCESS");
    } else if sec_debug {
        push_lit(&mut out, "SECURITY=DEBUG_ACCESS");
    } else {
        push_lit(&mut out, "SECURITY=STANDARD_ACCESS");
    }
    push_lit(&mut out, " -- ");
    if biz_urgent {
        push_lit(&mut out, "BUSINESS=URGENT_QUERY");
    } else if biz_confidential {
        push_lit(&mut out, "BUSINESS=CONFIDENTIAL_QUERY");
    } else if biz_bulk {
        push_lit(&mut out, "BUSINESS=BULK_QUERY");
    } else if is_template {
        push_lit(&mut out, "BUSINESS=TEMPLATE_QUERY");
    } else {
        push_lit(&mut out, "BUSINESS=STANDARD_QUERY");
    }
    proof {
        assert(out@ =~= spec_enrich_xpath(d, timestamp));
    }
    out
}

/// Prepare XML query execution with final tagging and the validation
/// rewrite.
#[verifier::rlimit(100)]
pub fn prepare_todo_execution(enriched_data: Vec<u8>) -> (out: Vec<u8>)
    ensures
        out@ == spec_prepare_xpath(enriched_data@),
{
    proof {
        xpath_tags_ascii();
        reveal_strlit("-- SAFETY_CHECK");
    }
    let ghost e = enriched_data@;
    let mut out = enriched_data;
    let low1 = to_lower_bytes(out.as_slice());
    if contains_lit(low1.as_slice(), "//todo") {
        push_lit(
            &mut out,
            " -- XML_TYPE=TODO_SELECTION -- XML_VERSION=1.0 -- NAMESPACE_SUPPORT=ENABLED -- WILDCARD_SUPPORT=ENABLED",
        );
    }
    let low2 = to_lower_bytes(out.as_slice());
    if contains_lit(low2.as_slice(), "//user") {
        push_lit(
            &mut out,
            " -- XML_TYPE=USER_SELECTION -- XML_VERSION=1.0 -- AUTHENTICATION=REQUIRED -- PRIVACY_CONTROL=ENABLED",
        );
    }
    let low3 = to_lower_bytes(out.as_slice());
    if contains_lit(low3.as_slice(), "//project") {
        push_lit(
            &mut out,
            " -- XML_TYPE=PROJECT_SELECTION -- XML_VERSION=1.0 -- HIERARCHY_SUPPORT=ENABLED -- RELATIONSHIP_TRACKING=ENABLED",
        );
    }
    let low4 = to_lower_bytes(out.as_slice());
    if contains_lit(low4.as_slice(), "//analytics") {
        push_lit(
            &mut out,
            " -- XML_TYPE=ANALYTICS_SELECTION -- XML_VERSION=1.0 -- AGGREGATION_SUPPORT=ENABLED -- METRICS_COLLECTION=ENABLED",
        );
    }
    let low5 = to_lower_bytes(out.as_slice());
    if contains_lit(low5.as_slice(), "localhost") {
        push_lit(
            &mut out,
            " -- ENVIRONMENT=LOCAL -- DEBUG_MODE=ENABLED -- CACHE_DISABLED=TRUE -- LOG_LEVEL=DEBUG",
        );
    }
    let low6 = to_lower_bytes(out.as_slice());
    if contains_lit(low6.as_slice(), "staging") {
        push_lit(
            &mut out,
            " -- ENVIRONMENT=STAGING -- TEST_DATA=ENABLED -- MONITORING=ENHANCED -- BACKUP_DISABLED=TRUE",
        );
    }
    let low7 = to_lower_bytes(out.as_slice());
    if contains_lit(low7.as_slice(), "production") {
        push_lit(
            &mut out,
            " -- ENVIRONMENT=PRODUCTION -- SECURITY=MAXIMUM -- MONITORING=REAL_TIME -- BACKUP=ENABLED",
        );
    }
    let low8 = to_lower_bytes(out.as_slice());
    if contains_lit(low8.as_slice(), "development") {
        push_lit(
            &mut out,
            " -- ENVIRONMENT=DEVELOPMENT -- HOT_RELOAD=ENABLED -- DEBUGGER=ATTACHED -- PROFILING=ENABLED",
        );
    }
    proof {
        assert(out@ == xpath_env_steps(e));
    }
    let mut out = if contains_lit(out.as_slice(), "-- SAFETY_CHECK") {
        let pat = lit_vec("-- SAFETY_CHECK");
        let rep = lit_vec("-- XML_VALIDATION=ENABLED");
        replace_bytes(out.as_slice(), pat.as_slice(), rep.as_slice())
    } else {
        let mut kept = out;
        push_lit(&mut kept, " -- XML_VALIDATION=SKIPPED");
        kept
    };
    proof {
        assert(out@ == xpath_validation_step(xpath_env_steps(e)));
    }
    if contains_lit(out.as_slice(), "admin") || contains_lit(out.as_slice(), "root") {
        push_lit(
            &mut out,
            " -- SECURITY_LEVEL=ADMIN -- ACCESS_CONTROL=STRICT -- AUDIT_LOGGING=ENABLED -- SESSION_VALIDATION=REQUIRED",
        );
    }
    if contains_lit(out.as_slice(), "external") {
        push_lit(
            &mut out,
            " -- EXTERNAL_ACCESS=ENABLED -- CORS_POLICY=STRICT -- RATE_LIMITING=ENABLED -- IP_WHITELIST=REQUIRED",
        );
    }
    if contains_lit(out.as_slice(), "api") {
        push_lit(
            &mut out,
            " -- API_ACCESS=ENABLED -- AUTHENTICATION=REQUIRED -- RATE_LIMITING=ENABLED -- VERSIONING=ENABLED",
        );
    }
    if contains_lit(out.as_slice(), "bulk") {
        push_lit(
            &mut out,
            " -- BULK_QUERY=ENABLED -- BATCH_SIZE=OPTIMIZED -- MEMORY_ALLOCATION=INCREASED -- THREAD_POOL=EXPANDED",
        );
    }
    if contains_lit(out.as_slice(), "search") || contains_lit(out.as_slice(), "filter") {
        push_lit(
            &mut out,
            " -- SEARCH_OPTIMIZATION=ENABLED -- INDEX_UTILIZATION=MAXIMUM -- CACHE_STRATEGY=AGGRESSIVE -- QUERY_OPTIMIZATION=ENABLED",
        );
    }
    if contains_lit(out.as_slice(), "analytics") {
        push_lit(
            &mut out,
            " -- ANALYTICS_MODE=ENABLED -- DATA_COLLECTION=ENHANCED -- METRICS_AGGREGATION=REAL_TIME -- REPORTING=ENABLED",
        );
    }
    proof {
        assert(out@ =~= spec_prepare_xpath(e));
    }
    out
}

/// Relies on `sxd_xpath::Factory::build`: parses the expression
/// against the XPath grammar; the outcome is discarded, as the sink
/// only needs to be reached.
#[verifier::external_body]
fn sxd_build_sink(expr: &[u8]) {
    let text = String::from_utf8_lossy(expr).to_string();
    let factory = sxd_xpath::Factory::new();
    let _ = factory.build(&text);
}

/// Relies on `xpath_reader::expression::parse`: parses the expression;
/// the outcome is discarded, as the sink only needs to be reached.
#[verifier::external_body]
fn xpath_reader_parse_sink(expr: &[u8]) {
    let text = String::from_utf8_lossy(expr).to_string();
    let _ = xpath_reader::expression::parse(&text);
}

/// First expression sink: the expression is handed to the XPath
/// factory and a status line reports its byte length.
pub fn execute_primary_task_validation(data: &[u8]) -> (st: Vec<u8>)
    ensures
        st@ == spec_first_xpath_status(data@.len()),
{
    proof {
        xpath_tags_ascii();
    }
    sxd_build_sink(data);
    let mut st: Vec<u8> = Vec::new();
    push_lit(&mut st, "First task validation operation completed: ");
    let mut num = render_usize(data.len());
    st.append(&mut num);
    push_lit(&mut st, " bytes");
    proof {
        assert(st@ =~= spec_first_xpath_status(data@.len()));
    }
    st
}

/// Relies on libxml's `Context::evaluate` against a fresh empty
/// document: the expression is parsed and evaluated in a document
/// context; the outcome is discarded, as the sink only needs to be
/// reached.  The evaluator hands the text to a C string constructor
/// that aborts on an interior zero byte, so such expressions are
/// excluded here.
#[verifier::external_body]
fn libxml_evaluate_sink(expr: &[u8])
    requires
        nul_free(expr@),
{
    let text = String::from_utf8_lossy(expr).to_string();
    if let Ok(doc) = libxml::tree::Document::new() {
        if let Ok(context) = libxml::xpath::Context::new(&doc) {
            let _result = context.evaluate(&text);
        }
    }
}

/// Second expression sink: the expression is evaluated in a document
/// context and a status line reports its byte length.  The evaluator
/// cannot take zero bytes, so the expression must be free of them.
pub fn execute_secondary_task_validation(data: &[u8]) -> (st: Vec<u8>)
    requires
        nul_free(data@),
    ensures
        st@ == spec_second_xpath_status(data@.len()),
{
    proof {
        xpath_tags_ascii();
    }
    libxml_evaluate_sink(data);
    let mut st: Vec<u8> = Vec::new();
    push_lit(&mut st, "Second task validation operation completed: ");
    let mut num = render_usize(data.len());
    st.append(&mut num);
    push_lit(&mut st, " bytes");
    proof {
        assert(st@ =~= spec_second_xpath_status(data@.len()));
    }
    st
}

/// Third expression sink: the expression is handed to the expression
/// parser and a status line reports its byte length.
pub fn execute_tertiary_task_validation(data: &[u8]) -> (st: Vec<u8>)
    ensures
        st@ == spec_third_xpath_status(data@.len()),
{
    proof {
        xpath_tags_ascii();
    }
    xpath_reader_parse_sink(data);
    let mut st: Vec<u8> = Vec::new();
    push_lit(&mut st, "Third task validation operation completed: ");
    let mut num = render_usize(data.len());
    st.append(&mut num);
    push_lit(&mut st, " bytes");
    proof {
        assert(st@ =~= spec_third_xpath_status(data@.len()));
    }
    st
}

/// Run the whole todo-item pipeline for one given clock reading.  The
/// payload must be free of zero bytes, which the document-context
/// evaluator cannot take.
pub fn handle_todo_item_operations_at(todo_data: Vec<u8>, timestamp: i64) -> (r: Result<
    Vec<u8>,
    Vec<u8>,
>)
    requires
        nul_free(todo_data@),
    ensures
        r is Ok,
        r->Ok_0@ == spec_handle_xpath(todo_data@, timestamp),
{
    proof {
        xpath_tags_ascii();
    }
    let ghost s = todo_data@;
    proof {
        lemma_xpath_final_nul_free(s, timestamp);
    }
    let parsed = parse_todo_request(todo_data);
    let enriched = enrich_todo_context(parsed, timestamp);
    let final_data = prepare_todo_execution(enriched);
    let first = execute_primary_task_validation(final_data.as_slice());
    let second = execute_secondary_task_validation(final_data.as_slice());
    let third = execute_tertiary_task_validation(final_data.as_slice());
    let mut out: Vec<u8> = Vec::new();
    push_lit(&mut out, "Todo item operations completed: ");
    out.extend_from_slice(first.as_slice());
    push_lit(&mut out, ", ");
    out.extend_from_slice(second.as_slice());
    push_lit(&mut out, ", ");
    out.extend_from_slice(third.as_slice());
    proof {
        assert(out@ =~= spec_handle_xpath(s, timestamp));
    }
    Ok(out)
}

/// Todo-item processing entry point: reads the clock, then runs the
/// pipeline; the summary always reports all three sink statuses.  The
/// payload must be free of zero bytes, which the document-context
/// evaluator cannot take.
pub fn handle_todo_item_operations(todo_data: Vec<u8>) -> (r: Result<Vec<u8>, Vec<u8>>)
    requires
        nul_free(todo_data@),
    ensures
        r is Ok,
        exists|ts: i64| r->Ok_0@ == #[trigger] spec_handle_xpath(todo_data@, ts),
{
    let ts = clock::unix_timestamp_now();
    handle_todo_item_operations_at(todo_data, ts)
}

proof fn xpath_tags_nul_free()
    ensures
        nul_free(lit("//todo")),
        nul_free(lit("OPERATION=TODO_NODE_SELECTION -- PRIORITY=NODE_QUERY -- CATEGORY=SELECTION_OPERATION")),
        nul_free(lit("//user")),
        nul_free(lit("OPERATION=USER_NODE_SELECTION -- PRIORITY=NODE_QUERY -- CATEGORY=SELECTION_OPERATION")),
        nul_free(lit("//task")),
        nul_free(lit("OPERATION=TASK_NODE_SELECTION -- PRIORITY=NODE_QUERY -- CATEGORY=SELECTION_OPERATION")),
        nul_free(lit("//project")),
        nul_free(lit("OPERATION=PROJECT_NODE_SELECTION -- PRIORITY=NODE_QUERY -- CATEGORY=SELECTION_OPERATION")),
        nul_free(lit("//category")),
        nul_free(lit("OPERATION=CATEGORY_NODE_SELECTION -- PRIORITY=NODE_QUERY -- CATEGORY=SELECTION_OPERATION")),
        nul_free(lit("//priority")),
        nul_free(lit("OPERATION=PRIORITY_NODE_SELECTION -- PRIORITY=NODE_QUERY -- CATEGORY=SELECTION_OPERATION")),
        nul_free(lit("//status")),
        nul_free(lit("OPERATION=STATUS_NODE_SELECTION -- PRIORITY=NODE_QUERY -- CATEGORY=SELECTION_OPERATION")),
        nul_free(lit("//deadline")),
        nul_free(lit("OPERATION=DEADLINE_NODE_SELECTION -- PRIORITY=NODE_QUERY -- CATEGORY=SELECTION_OPERATION")),
        nul_free(lit("//assigned")),
        nul_free(lit("OPERATION=ASSIGNED_NODE_SELECTION -- PRIORITY=NODE_QUERY -- CATEGORY=SELECTION_OPERATION")),
        nul_free(lit("//completed")),
        nul_free(lit("OPERATION=COMPLETED_NODE_SELECTION -- PRIORITY=NODE_QUERY -- CATEGORY=SELECTION_OPERATION")),
        nul_free(lit("//archived")),
        nul_free(lit("OPERATION=ARCHIVED_NODE_SELECTION -- PRIORITY=NODE_QUERY -- CATEGORY=SELECTION_OPERATION")),
        nul_free(lit("//template")),
        nul_free(lit("OPERATION=TEMPLATE_NODE_SELECTION -- PRIORITY=NODE_QUERY -- CATEGORY=SELECTION_OPERATION")),
        nul_free(lit("//version")),
        nul_free(lit("OPERATION=VERSION_NODE_SELECTION -- PRIORITY=NODE_QUERY -- CATEGORY=SELECTION_OPERATION")),
        nul_free(lit("//history")),
        nul_free(lit("OPERATION=HISTORY_NODE_SELECTION -- PRIORITY=NODE_QUERY -- CATEGORY=SELECTION_OPERATION")),
        nul_free(lit("//analytics")),
        nul_free(lit("OPERATION=ANALYTICS_NODE_SELECTION -- PRIORITY=NODE_QUERY -- CATEGORY=SELECTION_OPERATION")),
        nul_free(lit("//report")),
        nul_free(lit("OPERATION=REPORT_NODE_SELECTION -- PRIORITY=NODE_QUERY -- CATEGORY=SELECTION_OPERATION")),
        nul_free(lit("//search")),
        nul_free(lit("OPERATION=SEARCH_NODE_SELECTION -- PRIORITY=SEARCH_QUERY -- CATEGORY=SEARCH_OPERATION")),
        nul_free(lit("//filter")),
        nul_free(lit("OPERATION=FILTER_NODE_SELECTION -- PRIORITY=FILTER_QUERY -- CATEGORY=FILTER_OPERATION")),
        nul_free(lit("//sort")),
        nul_free(lit("OPERATION=SORT_NODE_SELECTION -- PRIORITY=SORT_QUERY -- CATEGORY=SORT_OPERATION")),
        nul_free(lit("//aggregate")),
        nul_free(lit("OPERATION=AGGREGATE_NODE_SELECTION -- PRIORITY=AGGREGATE_QUERY -- CATEGORY=AGGREGATE_OPERATION")),
        nul_free(lit("OPERATION=XPATH_GENERIC_QUERY -- PRIORITY=STANDARD -- CATEGORY=GENERAL")),
        nul_free(lit("namespace")),
        nul_free(lit("NAMESPACED")),
        nul_free(lit("wildcard")),
        nul_free(lit("WILDCARD")),
        nul_free(lit("recursive")),
        nul_free(lit("RECURSIVE")),
        nul_free(lit("STANDARD")),
        nul_free(lit("RECURSIVE_FLAG")),
        nul_free(lit("deep")),
        nul_free(lit("DEEP_SEARCH_FLAG")),
        nul_free(lit("WILDCARD_FLAG")),
        nul_free(lit("case_sensitive")),
        nul_free(lit("CASE_SENSITIVE_FLAG")),
        nul_free(lit("NAMESPACE_FLAG")),
        nul_free(lit("admin")),
        nul_free(lit("root")),
        nul_free(lit("ADMIN_ACCESS")),
        nul_free(lit("debug")),
        nul_free(lit("test")),
        nul_free(lit("DEBUG_MODE")),
        nul_free(lit(" -- ")),
        nul_free(lit(" -- TYPE=")),
        nul_free(lit(" -- COMPLEXITY=")),
        nul_free(lit(" -- FLAGS=")),
        nul_free(lit(",")),
        nul_free(lit(" -- LENGTH=")),
        nul_free(lit("todo")),
        nul_free(lit("CONTEXT=TODO_QUERY")),
        nul_free(lit("user")),
        nul_free(lit("CONTEXT=USER_QUERY")),
        nul_free(lit("task")),
        nul_free(lit("CONTEXT=TASK_QUERY")),
        nul_free(lit("project")),
        nul_free(lit("CONTEXT=PROJECT_QUERY")),
        nul_free(lit("category")),
        nul_free(lit("CONTEXT=CATEGORY_QUERY")),
        nul_free(lit("priority")),
        nul_free(lit("CONTEXT=PRIORITY_QUERY")),
        nul_free(lit("status")),
        nul_free(lit("CONTEXT=STATUS_QUERY")),
        nul_free(lit("deadline")),
        nul_free(lit("CONTEXT=DEADLINE_QUERY")),
        nul_free(lit("assigned")),
        nul_free(lit("CONTEXT=ASSIGNED_QUERY")),
        nul_free(lit("completed")),
        nul_free(lit("CONTEXT=COMPLETED_QUERY")),
        nul_free(lit("archived")),
        nul_free(lit("CONTEXT=ARCHIVED_QUERY")),
        nul_free(lit("template")),
        nul_free(lit("CONTEXT=TEMPLATE_QUERY")),
        nul_free(lit("version")),
        nul_free(lit("CONTEXT=VERSION_QUERY")),
        nul_free(lit("history")),
        nul_free(lit("CONTEXT=HISTORY_QUERY")),
        nul_free(lit("analytics")),
        nul_free(lit("CONTEXT=ANALYTICS_QUERY")),
        nul_free(lit("report")),
        nul_free(lit("CONTEXT=REPORT_QUERY")),
        nul_free(lit("CONTEXT=GENERAL_QUERY")),
        nul_free(lit("SECURITY=ADMIN_ACCESS")),
        nul_free(lit("external")),
        nul_free(lit("SECURITY=EXTERNAL_ACCESS")),
        nul_free(lit("api")),
        nul_free(lit("SECURITY=API_ACCESS")),
        nul_free(lit("SECURITY=DEBUG_ACCESS")),
        nul_free(lit("SECURITY=STANDARD_ACCESS")),
        nul_free(lit("urgent")),
        nul_free(lit("BUSINESS=URGENT_QUERY")),
        nul_free(lit("confidential")),
        nul_free(lit("BUSINESS=CONFIDENTIAL_QUERY")),
        nul_free(lit("bulk")),
        nul_free(lit("BUSINESS=BULK_QUERY")),
        nul_free(lit("BUSINESS=TEMPLATE_QUERY")),
        nul_free(lit("BUSINESS=STANDARD_QUERY")),
        nul_free(lit(" -- TIMESTAMP=")),
        nul_free(lit(" -- SESSION=SESS_")),
        nul_free(lit(" -- VERSION=v1.0 -- ")),
        nul_free(lit(" -- QUERY_HASH=QUERY_")),
        nul_free(lit(" -- REQUEST_ID=REQ_")),
        nul_free(lit(" -- CORRELATION_ID=CORR_")),
        nul_free(lit(" -- PERFORMANCE[SIZE=")),
        nul_free(lit(",TIME=")),
        nul_free(lit(",MEMORY=")),
        nul_free(lit(",CPU=")),
        nul_free(lit("] -- SESSION_DURATION=")),
        nul_free(lit(" -- QUERY_COUNT=")),
        nul_free(lit(" -- NETWORK[LATENCY=")),
        nul_free(lit(",LOAD=")),
        nul_free(lit(",CACHE=")),
        nul_free(lit("] -- ")),
        nul_free(lit(" -- XML_TYPE=TODO_SELECTION -- XML_VERSION=1.0 -- NAMESPACE_SUPPORT=ENABLED -- WILDCARD_SUPPORT=ENABLED")),
        nul_free(lit(" -- XML_TYPE=USER_SELECTION -- XML_VERSION=1.0 -- AUTHENTICATION=REQUIRED -- PRIVACY_CONTROL=ENABLED")),
        nul_free(lit(" -- XML_TYPE=PROJECT_SELECTION -- XML_VERSION=1.0 -- HIERARCHY_SUPPORT=ENABLED -- RELATIONSHIP_TRACKING=ENABLED")),
        nul_free(lit(" -- XML_TYPE=ANALYTICS_SELECTION -- XML_VERSION=1.0 -- AGGREGATION_SUPPORT=ENABLED -- METRICS_COLLECTION=ENABLED")),
        nul_free(lit("localhost")),
        nul_free(lit(" -- ENVIRONMENT=LOCAL -- DEBUG_MODE=ENABLED -- CACHE_DISABLED=TRUE -- LOG_LEVEL=DEBUG")),
        nul_free(lit("staging")),
        nul_free(lit(" -- ENVIRONMENT=STAGING -- TEST_DATA=ENABLED -- MONITORING=ENHANCED -- BACKUP_DISABLED=TRUE")),
        nul_free(lit("production")),
        nul_free(lit(" -- ENVIRONMENT=PRODUCTION -- SECURITY=MAXIMUM -- MONITORING=REAL_TIME -- BACKUP=ENABLED")),
        nul_free(lit("development")),
        nul_free(lit(" -- ENVIRONMENT=DEVELOPMENT -- HOT_RELOAD=ENABLED -- DEBUGGER=ATTACHED -- PROFILING=ENABLED")),
        nul_free(lit("-- SAFETY_CHECK")),
        nul_free(lit("-- XML_VALIDATION=ENABLED")),
        nul_free(lit(" -- XML_VALIDATION=SKIPPED")),
        nul_free(lit(" -- SECURITY_LEVEL=ADMIN -- ACCESS_CONTROL=STRICT -- AUDIT_LOGGING=ENABLED -- SESSION_VALIDATION=REQUIRED")),
        nul_free(lit(" -- EXTERNAL_ACCESS=ENABLED -- CORS_POLICY=STRICT -- RATE_LIMITING=ENABLED -- IP_WHITELIST=REQUIRED")),
        nul_free(lit(" -- API_ACCESS=ENABLED -- AUTHENTICATION=REQUIRED -- RATE_LIMITING=ENABLED -- VERSIONING=ENABLED")),
        nul_free(lit(" -- BULK_QUERY=ENABLED -- BATCH_SIZE=OPTIMIZED -- MEMORY_ALLOCATION=INCREASED -- THREAD_POOL=EXPANDED")),
        nul_free(lit("search")),
        nul_free(lit("filter")),
        nul_free(lit(" -- SEARCH_OPTIMIZATION=ENABLED -- INDEX_UTILIZATION=MAXIMUM -- CACHE_STRATEGY=AGGRESSIVE -- QUERY_OPTIMIZATION=ENABLED")),
        nul_free(lit(" -- ANALYTICS_MODE=ENABLED -- DATA_COLLECTION=ENHANCED -- METRICS_AGGREGATION=REAL_TIME -- REPORTING=ENABLED")),
        nul_free(lit("First task validation operation completed: ")),
        nul_free(lit(" bytes")),
        nul_free(lit("Second task validation operation completed: ")),
        nul_free(lit("Third task validation operation completed: ")),
        nul_free(lit("Todo item operations completed: ")),
        nul_free(lit(", ")),
{
    reveal_strlit("//todo");
    reveal_strlit("OPERATION=TODO_NODE_SELECTION -- PRIORITY=NODE_QUERY -- CATEGORY=SELECTION_OPERATION");
    reveal_strlit("//user");
    reveal_strlit("OPERATION=USER_NODE_SELECTION -- PRIORITY=NODE_QUERY -- CATEGORY=SELECTION_OPERATION");
    reveal_strlit("//task");
    reveal_strlit("OPERATION=TASK_NODE_SELECTION -- PRIORITY=NODE_QUERY -- CATEGORY=SELECTION_OPERATION");
    reveal_strlit("//project");
    reveal_strlit("OPERATION=PROJECT_NODE_SELECTION -- PRIORITY=NODE_QUERY -- CATEGORY=SELECTION_OPERATION");
    reveal_strlit("//category");
    reveal_strlit("OPERATION=CATEGORY_NODE_SELECTION -- PRIORITY=NODE_QUERY -- CATEGORY=SELECTION_OPERATION");
    reveal_strlit("//priority");
    reveal_strlit("OPERATION=PRIORITY_NODE_SELECTION -- PRIORITY=NODE_QUERY -- CATEGORY=SELECTION_OPERATION");
    reveal_strlit("//status");
    reveal_strlit("OPERATION=STATUS_NODE_SELECTION -- PRIORITY=NODE_QUERY -- CATEGORY=SELECTION_OPERATION");
    reveal_strlit("//deadline");
    reveal_strlit("OPERATION=DEADLINE_NODE_SELECTION -- PRIORITY=NODE_QUERY -- CATEGORY=SELECTION_OPERATION");
    reveal_strlit("//assigned");
    reveal_strlit("OPERATION=ASSIGNED_NODE_SELECTION -- PRIORITY=NODE_QUERY -- CATEGORY=SELECTION_OPERATION");
    reveal_strlit("//completed");
    reveal_strlit("OPERATION=COMPLETED_NODE_SELECTION -- PRIORITY=NODE_QUERY -- CATEGORY=SELECTION_OPERATION");
    reveal_strlit("//archived");
    reveal_strlit("OPERATION=ARCHIVED_NODE_SELECTION -- PRIORITY=NODE_QUERY -- CATEGORY=SELECTION_OPERATION");
    reveal_strlit("//template");
    reveal_strlit("OPERATION=TEMPLATE_NODE_SELECTION -- PRIORITY=NODE_QUERY -- CATEGORY=SELECTION_OPERATION");
    reveal_strlit("//version");
    reveal_strlit("OPERATION=VERSION_NODE_SELECTION -- PRIORITY=NODE_QUERY -- CATEGORY=SELECTION_OPERATION");
    reveal_strlit("//history");
    reveal_strlit("OPERATION=HISTORY_NODE_SELECTION -- PRIORITY=NODE_QUERY -- CATEGORY=SELECTION_OPERATION");
    reveal_strlit("//analytics");
    reveal_strlit("OPERATION=ANALYTICS_NODE_SELECTION -- PRIORITY=NODE_QUERY -- CATEGORY=SELECTION_OPERATION");
    reveal_strlit("//report");
    reveal_strlit("OPERATION=REPORT_NODE_SELECTION -- PRIORITY=NODE_QUERY -- CATEGORY=SELECTION_OPERATION");
    reveal_strlit("//search");
    reveal_strlit("OPERATION=SEARCH_NODE_SELECTION -- PRIORITY=SEARCH_QUERY -- CATEGORY=SEARCH_OPERATION");
    reveal_strlit("//filter");
    reveal_strlit("OPERATION=FILTER_NODE_SELECTION -- PRIORITY=FILTER_QUERY -- CATEGORY=FILTER_OPERATION");
    reveal_strlit("//sort");
    reveal_strlit("OPERATION=SORT_NODE_SELECTION -- PRIORITY=SORT_QUERY -- CATEGORY=SORT_OPERATION");
    reveal_strlit("//aggregate");
    reveal_strlit("OPERATION=AGGREGATE_NODE_SELECTION -- PRIORITY=AGGREGATE_QUERY -- CATEGORY=AGGREGATE_OPERATION");
    reveal_strlit("OPERATION=XPATH_GENERIC_QUERY -- PRIORITY=STANDARD -- CATEGORY=GENERAL");
    reveal_strlit("namespace");
    reveal_strlit("NAMESPACED");
    reveal_strlit("wildcard");
    reveal_strlit("WILDCARD");
    reveal_strlit("recursive");
    reveal_strlit("RECURSIVE");
    reveal_strlit("STANDARD");
    reveal_strlit("RECURSIVE_FLAG");
    reveal_strlit("deep");
    reveal_strlit("DEEP_SEARCH_FLAG");
    reveal_strlit("WILDCARD_FLAG");
    reveal_strlit("case_sensitive");
    reveal_strlit("CASE_SENSITIVE_FLAG");
    reveal_strlit("NAMESPACE_FLAG");
    reveal_strlit("admin");
    reveal_strlit("root");
    reveal_strlit("ADMIN_ACCESS");
    reveal_strlit("debug");
    reveal_strlit("test");
    reveal_strlit("DEBUG_MODE");
    reveal_strlit(" -- ");
    reveal_strlit(" -- TYPE=");
    reveal_strlit(" -- COMPLEXITY=");
    reveal_strlit(" -- FLAGS=");
    reveal_strlit(",");
    reveal_strlit(" -- LENGTH=");
    reveal_strlit("todo");
    reveal_strlit("CONTEXT=TODO_QUERY");
    reveal_strlit("user");
    reveal_strlit("CONTEXT=USER_QUERY");
    reveal_strlit("task");
    reveal_strlit("CONTEXT=TASK_QUERY");
    reveal_strlit("project");
    reveal_strlit("CONTEXT=PROJECT_QUERY");
    reveal_strlit("category");
    reveal_strlit("CONTEXT=CATEGORY_QUERY");
    reveal_strlit("priority");
    reveal_strlit("CONTEXT=PRIORITY_QUERY");
    reveal_strlit("status");
    reveal_strlit("CONTEXT=STATUS_QUERY");
    reveal_strlit("deadline");
    reveal_strlit("CONTEXT=DEADLINE_QUERY");
    reveal_strlit("assigned");
    reveal_strlit("CONTEXT=ASSIGNED_QUERY");
    reveal_strlit("completed");
    reveal_strlit("CONTEXT=COMPLETED_QUERY");
    reveal_strlit("archived");
    reveal_strlit("CONTEXT=ARCHIVED_QUERY");
    reveal_strlit("template");
    reveal_strlit("CONTEXT=TEMPLATE_QUERY");
    reveal_strlit("version");
    reveal_strlit("CONTEXT=VERSION_QUERY");
    reveal_strlit("history");
    reveal_strlit("CONTEXT=HISTORY_QUERY");
    reveal_strlit("analytics");
    reveal_strlit("CONTEXT=ANALYTICS_QUERY");
    reveal_strlit("report");
    reveal_strlit("CONTEXT=REPORT_QUERY");
    reveal_strlit("CONTEXT=GENERAL_QUERY");
    reveal_strlit("SECURITY=ADMIN_ACCESS");
    reveal_strlit("external");
    reveal_strlit("SECURITY=EXTERNAL_ACCESS");
    reveal_strlit("api");
    reveal_strlit("SECURITY=API_ACCESS");
    reveal_strlit("SECURITY=DEBUG_ACCESS");
    reveal_strlit("SECURITY=STANDARD_ACCESS");
    reveal_strlit("urgent");
    reveal_strlit("BUSINESS=URGENT_QUERY");
    reveal_strlit("confidential");
    reveal_strlit("BUSINESS=CONFIDENTIAL_QUERY");
    reveal_strlit("bulk");
    reveal_strlit("BUSINESS=BULK_QUERY");
    reveal_strlit("BUSINESS=TEMPLATE_QUERY");
    reveal_strlit("BUSINESS=STANDARD_QUERY");
    reveal_strlit(" -- TIMESTAMP=");
    reveal_strlit(" -- SESSION=SESS_");
    reveal_strlit(" -- VERSION=v1.0 -- ");
    reveal_strlit(" -- QUERY_HASH=QUERY_");
    reveal_strlit(" -- REQUEST_ID=REQ_");
    reveal_strlit(" -- CORRELATION_ID=CORR_");
    reveal_strlit(" -- PERFORMANCE[SIZE=");
    reveal_strlit(",TIME=");
    reveal_strlit(",MEMORY=");
    reveal_strlit(",CPU=");
    reveal_strlit("] -- SESSION_DURATION=");
    reveal_strlit(" -- QUERY_COUNT=");
    reveal_strlit(" -- NETWORK[LATENCY=");
    reveal_strlit(",LOAD=");
    reveal_strlit(",CACHE=");
    reveal_strlit("] -- ");
    reveal_strlit(" -- XML_TYPE=TODO_SELECTION -- XML_VERSION=1.0 -- NAMESPACE_SUPPORT=ENABLED -- WILDCARD_SUPPORT=ENABLED");
    reveal_strlit(" -- XML_TYPE=USER_SELECTION -- XML_VERSION=1.0 -- AUTHENTICATION=REQUIRED -- PRIVACY_CONTROL=ENABLED");
    reveal_strlit(" -- XML_TYPE=PROJECT_SELECTION -- XML_VERSION=1.0 -- HIERARCHY_SUPPORT=ENABLED -- RELATIONSHIP_TRACKING=ENABLED");
    reveal_strlit(" -- XML_TYPE=ANALYTICS_SELECTION -- XML_VERSION=1.0 -- AGGREGATION_SUPPORT=ENABLED -- METRICS_COLLECTION=ENABLED");
    reveal_strlit("localhost");
    reveal_strlit(" -- ENVIRONMENT=LOCAL -- DEBUG_MODE=ENABLED -- CACHE_DISABLED=TRUE -- LOG_LEVEL=DEBUG");
    reveal_strlit("staging");
    reveal_strlit(" -- ENVIRONMENT=STAGING -- TEST_DATA=ENABLED -- MONITORING=ENHANCED -- BACKUP_DISABLED=TRUE");
    reveal_strlit("production");
    reveal_strlit(" -- ENVIRONMENT=PRODUCTION -- SECURITY=MAXIMUM -- MONITORING=REAL_TIME -- BACKUP=ENABLED");
    reveal_strlit("development");
    reveal_strlit(" -- ENVIRONMENT=DEVELOPMENT -- HOT_RELOAD=ENABLED -- DEBUGGER=ATTACHED -- PROFILING=ENABLED");
    reveal_strlit("-- SAFETY_CHECK");
    reveal_strlit("-- XML_VALIDATION=ENABLED");
    reveal_strlit(" -- XML_VALIDATION=SKIPPED");
    reveal_strlit(" -- SECURITY_LEVEL=ADMIN -- ACCESS_CONTROL=STRICT -- AUDIT_LOGGING=ENABLED -- SESSION_VALIDATION=REQUIRED");
    reveal_strlit(" -- EXTERNAL_ACCESS=ENABLED -- CORS_POLICY=STRICT -- RATE_LIMITING=ENABLED -- IP_WHITELIST=REQUIRED");
    reveal_strlit(" -- API_ACCESS=ENABLED -- AUTHENTICATION=REQUIRED -- RATE_LIMITING=ENABLED -- VERSIONING=ENABLED");
    reveal_strlit(" -- BULK_QUERY=ENABLED -- BATCH_SIZE=OPTIMIZED -- MEMORY_ALLOCATION=INCREASED -- THREAD_POOL=EXPANDED");
    reveal_strlit("search");
    reveal_strlit("filter");
    reveal_strlit(" -- SEARCH_OPTIMIZATION=ENABLED -- INDEX_UTILIZATION=MAXIMUM -- CACHE_STRATEGY=AGGRESSIVE -- QUERY_OPTIMIZATION=ENABLED");
    reveal_strlit(" -- ANALYTICS_MODE=ENABLED -- DATA_COLLECTION=ENHANCED -- METRICS_AGGREGATION=REAL_TIME -- REPORTING=ENABLED");
    reveal_strlit("First task validation operation completed: ");
    reveal_strlit(" bytes");
    reveal_strlit("Second task validation operation completed: ");
    reveal_strlit("Third task validation operation completed: ");
    reveal_strlit("Todo item operations completed: ");
    reveal_strlit(", ");
}

proof fn lemma_xpath_flags_nul_free(low: Seq<u8>, p: Seq<u8>)
    ensures
        forall|k: int|
            0 <= k < xpath_flags(low, p).len() ==> nul_free(#[trigger] xpath_flags(low, p)[k]),
{
    xpath_tags_nul_free();
}

proof fn lemma_xpath_parse_nul_free(s: Seq<u8>)
    requires
        nul_free(s),
    ensures
        nul_free(spec_parse_xpath(s)),
{
    xpath_tags_nul_free();
    let low = lower_seq(xpath_base(s));
    let p = xpath_params(s);
    lemma_dec_digits_range(xpath_complexity(s));
    lemma_dec_digits_range(s.len());
    assert(nul_free(xpath_class_tag(low)));
    assert(nul_free(xpath_validation_type(p)));
    assert(nul_free(dec_digits(xpath_complexity(s))));
    assert(nul_free(dec_digits(s.len())));
    lemma_xpath_flags_nul_free(low, p);
    lemma_nul_free_join(xpath_flags(low, p), lit(","));
    let q1 = s + lit(" -- ");
    lemma_nul_free_concat(s, lit(" -- "));
    let q2 = q1 + xpath_class_tag(low);
    lemma_nul_free_concat(q1, xpath_class_tag(low));
    let q3 = q2 + lit(" -- TYPE=");
    lemma_nul_free_concat(q2, lit(" -- TYPE="));
    let q4 = q3 + xpath_validation_type(p);
    lemma_nul_free_concat(q3, xpath_validation_type(p));
    let q5 = q4 + lit(" -- COMPLEXITY=");
    lemma_nul_free_concat(q4, lit(" -- COMPLEXITY="));
    let q6 = q5 + dec_digits(xpath_complexity(s));
    lemma_nul_free_concat(q5, dec_digits(xpath_complexity(s)));
    let q7 = q6 + lit(" -- FLAGS=");
    lemma_nul_free_concat(q6, lit(" -- FLAGS="));
    let q8 = q7 + join_with(xpath_flags(low, p), lit(","));
    lemma_nul_free_concat(q7, join_with(xpath_flags(low, p), lit(",")));
    let q9 = q8 + lit(" -- LENGTH=");
    lemma_nul_free_concat(q8, lit(" -- LENGTH="));
    let q10 = q9 + dec_digits(s.len());
    lemma_nul_free_concat(q9, dec_digits(s.len()));
    assert(spec_parse_xpath(s) == q10);
}

proof fn lemma_xpath_enrich_nul_free(d: Seq<u8>, ts: i64)
    requires
        nul_free(d),
    ensures
        nul_free(spec_enrich_xpath(d, ts)),
{
    xpath_tags_nul_free();
    lemma_dec_digits_range(tsmod(ts, 10000));
    lemma_dec_digits_range(d.len());
    lemma_dec_digits_range(mem32(d.len()));
    lemma_dec_digits_range(tsmod(ts, 1000));
    lemma_dec_digits_range(tsmod(ts, 100));
    lemma_dec_digits_range(tsmod(ts, 3600));
    lemma_dec_digits_range(tsmod(ts, 100) + 1);
    lemma_dec_digits_range(tsmod(ts, 500));
    lemma_hex_digits_range(tsmod(ts, 0xFFFF));
    lemma_hex_digits_range(tsmod(ts, 0xFFFFFF));
    lemma_hex_digits_range(tsmod(ts, 0xFFFFFFFF));
    if ts >= 0 {
        lemma_dec_digits_range((ts as int) as nat);
    } else {
        lemma_dec_digits_range((-(ts as int)) as nat);
        assert(nul_free(seq![45u8] + dec_digits((-(ts as int)) as nat))) by {
            lemma_nul_free_concat(seq![45u8], dec_digits((-(ts as int)) as nat));
        }
    }
    assert(nul_free(dec_int(ts as int)));
    assert(nul_free(xpath_context_tag(d)));
    assert(nul_free(xpath_security_tag(d)));
    assert(nul_free(xpath_business_tag(d)));
    let r1 = d + lit(" -- TIMESTAMP=");
    lemma_nul_free_concat(d, lit(" -- TIMESTAMP="));
    let r2 = r1 + dec_int(ts as int);
    lemma_nul_free_concat(r1, dec_int(ts as int));
    let r3 = r2 + lit(" -- SESSION=SESS_");
    lemma_nul_free_concat(r2, lit(" -- SESSION=SESS_"));
    let r4 = r3 + dec_digits(tsmod(ts, 10000));
    lemma_nul_free_concat(r3, dec_digits(tsmod(ts, 10000)));
    let r5 = r4 + lit(" -- VERSION=v1.0 -- ");
    lemma_nul_free_concat(r4, lit(" -- VERSION=v1.0 -- "));
    let r6 = r5 + xpath_context_tag(d);
    lemma_nul_free_concat(r5, xpath_context_tag(d));
    let r7 = r6 + lit(" -- QUERY_HASH=QUERY_");
    lemma_nul_free_concat(r6, lit(" -- QUERY_HASH=QUERY_"));
    let r8 = r7 + hex_digits(tsmod(ts, 0xFFFF));
    lemma_nul_free_concat(r7, hex_digits(tsmod(ts, 0xFFFF)));
    let r9 = r8 + lit(" -- REQUEST_ID=REQ_");
    lemma_nul_free_concat(r8, lit(" -- REQUEST_ID=REQ_"));
    let r10 = r9 + hex_digits(tsmod(ts, 0xFFFFFF));
    lemma_nul_free_concat(r9, hex_digits(tsmod(ts, 0xFFFFFF)));
    let r11 = r10 + lit(" -- CORRELATION_ID=CORR_");
    lemma_nul_free_concat(r10, lit(" -- CORRELATION_ID=CORR_"));
    let r12 = r11 + hex_digits(tsmod(ts, 0xFFFFFFFF));
    lemma_nul_free_concat(r11, hex_digits(tsmod(ts, 0xFFFFFFFF)));
    let r13 = r12 + lit(" -- PERFORMANCE[SIZE=");
    lemma_nul_free_concat(r12, lit(" -- PERFORMANCE[SIZE="));
    let r14 = r13 + dec_digits(d.len());
    lemma_nul_free_concat(r13, dec_digits(d.len()));
    let r15 = r14 + lit(",TIME=");
    lemma_nul_free_concat(r14, lit(",TIME="));
    let r16 = r15 + dec_digits(tsmod(ts, 1000));
    lemma_nul_free_concat(r15, dec_digits(tsmod(ts, 1000)));
    let r17 = r16 + lit(",MEMORY=");
    lemma_nul_free_concat(r16, lit(",MEMORY="));
    let r18 = r17 + dec_digits(mem32(d.len()));
    lemma_nul_free_concat(r17, dec_digits(mem32(d.len())));
    let r19 = r18 + lit(",CPU=");
    lemma_nul_free_concat(r18, lit(",CPU="));
    let r20 = r19 + dec_digits(tsmod(ts, 100));
    lemma_nul_free_concat(r19, dec_digits(tsmod(ts, 100)));
    let r21 = r20 + lit("] -- SESSION_DURATION=");
    lemma_nul_free_concat(r20, lit("] -- SESSION_DURATION="));
    let r22 = r21 + dec_digits(tsmod(ts, 3600));
    lemma_nul_free_concat(r21, dec_digits(tsmod(ts, 3600)));
    let r23 = r22 + lit(" -- QUERY_COUNT=");
    lemma_nul_free_concat(r22, lit(" -- QUERY_COUNT="));
    let r24 = r23 + dec_digits(tsmod(ts, 100) + 1);
    lemma_nul_free_concat(r23, dec_digits(tsmod(ts, 100) + 1));
    let r25 = r24 + lit(" -- NETWORK[LATENCY=");
    lemma_nul_free_concat(r24, lit(" -- NETWORK[LATENCY="));
    let r26 = r25 + dec_digits(tsmod(ts, 500));
    lemma_nul_free_concat(r25, dec_digits(tsmod(ts, 500)));
    let r27 = r26 + lit(",LOAD=");
    lemma_nul_free_concat(r26, lit(",LOAD="));
    let r28 = r27 + dec_digits(tsmod(ts, 100));
    lemma_nul_free_concat(r27, dec_digits(tsmod(ts, 100)));
    let r29 = r28 + lit(",CACHE=");
    lemma_nul_free_concat(r28, lit(",CACHE="));
    let r30 = r29 + dec_digits(tsmod(ts, 100));
    lemma_nul_free_concat(r29, dec_digits(tsmod(ts, 100)));
    let r31 = r30 + lit("] -- ");
    lemma_nul_free_concat(r30, lit("] -- "));
    let r32 = r31 + xpath_security_tag(d);
    lemma_nul_free_concat(r31, xpath_security_tag(d));
    let r33 = r32 + lit(" -- ");
    lemma_nul_free_concat(r32, lit(" -- "));
    let r34 = r33 + xpath_business_tag(d);
    lemma_nul_free_concat(r33, xpath_business_tag(d));
    assert(spec_enrich_xpath(d, ts) == r34);
}

proof fn xpath_prepare_tags_nul_free()
    ensures
        nul_free(lit(" -- XML_TYPE=TODO_SELECTION -- XML_VERSION=1.0 -- NAMESPACE_SUPPORT=ENABLED -- WILDCARD_SUPPORT=ENABLED")),
        nul_free(lit(" -- XML_TYPE=USER_SELECTION -- XML_VERSION=1.0 -- AUTHENTICATION=REQUIRED -- PRIVACY_CONTROL=ENABLED")),
        nul_free(lit(" -- XML_TYPE=PROJECT_SELECTION -- XML_VERSION=1.0 -- HIERARCHY_SUPPORT=ENABLED -- RELATIONSHIP_TRACKING=ENABLED")),
        nul_free(lit(" -- XML_TYPE=ANALYTICS_SELECTION -- XML_VERSION=1.0 -- AGGREGATION_SUPPORT=ENABLED -- METRICS_COLLECTION=ENABLED")),
        nul_free(lit(" -- ENVIRONMENT=LOCAL -- DEBUG_MODE=ENABLED -- CACHE_DISABLED=TRUE -- LOG_LEVEL=DEBUG")),
        nul_free(lit(" -- ENVIRONMENT=STAGING -- TEST_DATA=ENABLED -- MONITORING=ENHANCED -- BACKUP_DISABLED=TRUE")),
        nul_free(lit(" -- ENVIRONMENT=PRODUCTION -- SECURITY=MAXIMUM -- MONITORING=REAL_TIME -- BACKUP=ENABLED")),
        nul_free(lit(" -- ENVIRONMENT=DEVELOPMENT -- HOT_RELOAD=ENABLED -- DEBUGGER=ATTACHED -- PROFILING=ENABLED")),
        nul_free(lit("-- XML_VALIDATION=ENABLED")),
        nul_free(lit(" -- XML_VALIDATION=SKIPPED")),
        nul_free(lit(" -- SECURITY_LEVEL=ADMIN -- ACCESS_CONTROL=STRICT -- AUDIT_LOGGING=ENABLED -- SESSION_VALIDATION=REQUIRED")),
        nul_free(lit(" -- EXTERNAL_ACCESS=ENABLED -- CORS_POLICY=STRICT -- RATE_LIMITING=ENABLED -- IP_WHITELIST=REQUIRED")),
        nul_free(lit(" -- API_ACCESS=ENABLED -- AUTHENTICATION=REQUIRED -- RATE_LIMITING=ENABLED -- VERSIONING=ENABLED")),
        nul_free(lit(" -- BULK_QUERY=ENABLED -- BATCH_SIZE=OPTIMIZED -- MEMORY_ALLOCATION=INCREASED -- THREAD_POOL=EXPANDED")),
        nul_free(lit(" -- SEARCH_OPTIMIZATION=ENABLED -- INDEX_UTILIZATION=MAXIMUM -- CACHE_STRATEGY=AGGRESSIVE -- QUERY_OPTIMIZATION=ENABLED")),
        nul_free(lit(" -- ANALYTICS_MODE=ENABLED -- DATA_COLLECTION=ENHANCED -- METRICS_AGGREGATION=REAL_TIME -- REPORTING=ENABLED")),
{
    reveal_strlit(" -- XML_TYPE=TODO_SELECTION -- XML_VERSION=1.0 -- NAMESPACE_SUPPORT=ENABLED -- WILDCARD_SUPPORT=ENABLED");
    reveal_strlit(" -- XML_TYPE=USER_SELECTION -- XML_VERSION=1.0 -- AUTHENTICATION=REQUIRED -- PRIVACY_CONTROL=ENABLED");
    reveal_strlit(" -- XML_TYPE=PROJECT_SELECTION -- XML_VERSION=1.0 -- HIERARCHY_SUPPORT=ENABLED -- RELATIONSHIP_TRACKING=ENABLED");
    reveal_strlit(" -- XML_TYPE=ANALYTICS_SELECTION -- XML_VERSION=1.0 -- AGGREGATION_SUPPORT=ENABLED -- METRICS_COLLECTION=ENABLED");
    reveal_strlit(" -- ENVIRONMENT=LOCAL -- DEBUG_MODE=ENABLED -- CACHE_DISABLED=TRUE -- LOG_LEVEL=DEBUG");
    reveal_strlit(" -- ENVIRONMENT=STAGING -- TEST_DATA=ENABLED -- MONITORING=ENHANCED -- BACKUP_DISABLED=TRUE");
    reveal_strlit(" -- ENVIRONMENT=PRODUCTION -- SECURITY=MAXIMUM -- MONITORING=REAL_TIME -- BACKUP=ENABLED");
    reveal_strlit(" -- ENVIRONMENT=DEVELOPMENT -- HOT_RELOAD=ENABLED -- DEBUGGER=ATTACHED -- PROFILING=ENABLED");
    reveal_strlit("-- XML_VALIDATION=ENABLED");
    reveal_strlit(" -- XML_VALIDATION=SKIPPED");
    reveal_strlit(" -- SECURITY_LEVEL=ADMIN -- ACCESS_CONTROL=STRICT -- AUDIT_LOGGING=ENABLED -- SESSION_VALIDATION=REQUIRED");
    reveal_strlit(" -- EXTERNAL_ACCESS=ENABLED -- CORS_POLICY=STRICT -- RATE_LIMITING=ENABLED -- IP_WHITELIST=REQUIRED");
    reveal_strlit(" -- API_ACCESS=ENABLED -- AUTHENTICATION=REQUIRED -- RATE_LIMITING=ENABLED -- VERSIONING=ENABLED");
    reveal_strlit(" -- BULK_QUERY=ENABLED -- BATCH_SIZE=OPTIMIZED -- MEMORY_ALLOCATION=INCREASED -- THREAD_POOL=EXPANDED");
    reveal_strlit(" -- SEARCH_OPTIMIZATION=ENABLED -- INDEX_UTILIZATION=MAXIMUM -- CACHE_STRATEGY=AGGRESSIVE -- QUERY_OPTIMIZATION=ENABLED");
    reveal_strlit(" -- ANALYTICS_MODE=ENABLED -- DATA_COLLECTION=ENHANCED -- METRICS_AGGREGATION=REAL_TIME -- REPORTING=ENABLED");
}

proof fn lemma_xpath_env_nul_free(c: Seq<u8>)
    requires
        nul_free(c),
    ensures
        nul_free(xpath_env_steps(c)),
{
    xpath_prepare_tags_nul_free();
    let a0 = c;
    let a1 = if contains_seq(lower_seq(a0), lit("//todo")) {
        a0 + lit(" -- XML_TYPE=TODO_SELECTION -- XML_VERSION=1.0 -- NAMESPACE_SUPPORT=ENABLED -- WILDCARD_SUPPORT=ENABLED")
    } else {
        a0
    };
    if contains_seq(lower_seq(a0), lit("//todo")) {
        lemma_nul_free_concat(a0, lit(" -- XML_TYPE=TODO_SELECTION -- XML_VERSION=1.0 -- NAMESPACE_SUPPORT=ENABLED -- WILDCARD_SUPPORT=ENABLED"));
    }
    let a2 = if contains_seq(lower_seq(a1), lit("//user")) {
        a1 + lit(" -- XML_TYPE=USER_SELECTION -- XML_VERSION=1.0 -- AUTHENTICATION=REQUIRED -- PRIVACY_CONTROL=ENABLED")
    } else {
        a1
    };
    if contains_seq(lower_seq(a1), lit("//user")) {
        lemma_nul_free_concat(a1, lit(" -- XML_TYPE=USER_SELECTION -- XML_VERSION=1.0 -- AUTHENTICATION=REQUIRED -- PRIVACY_CONTROL=ENABLED"));
    }
    let a3 = if contains_seq(lower_seq(a2), lit("//project")) {
        a2 + lit(" -- XML_TYPE=PROJECT_SELECTION -- XML_VERSION=1.0 -- HIERARCHY_SUPPORT=ENABLED -- RELATIONSHIP_TRACKING=ENABLED")
    } else {
        a2
    };
    if contains_seq(lower_seq(a2), lit("//project")) {
        lemma_nul_free_concat(a2, lit(" -- XML_TYPE=PROJECT_SELECTION -- XML_VERSION=1.0 -- HIERARCHY_SUPPORT=ENABLED -- RELATIONSHIP_TRACKING=ENABLED"));
    }
    let a4 = if contains_seq(lower_seq(a3), lit("//analytics")) {
        a3 + lit(" -- XML_TYPE=ANALYTICS_SELECTION -- XML_VERSION=1.0 -- AGGREGATION_SUPPORT=ENABLED -- METRICS_COLLECTION=ENABLED")
    } else {
        a3
    };
    if contains_seq(lower_seq(a3), lit("//analytics")) {
        lemma_nul_free_concat(a3, lit(" -- XML_TYPE=ANALYTICS_SELECTION -- XML_VERSION=1.0 -- AGGREGATION_SUPPORT=ENABLED -- METRICS_COLLECTION=ENABLED"));
    }
    let a5 = if contains_seq(lower_seq(a4), lit("localhost")) {
        a4 + lit(" -- ENVIRONMENT=LOCAL -- DEBUG_MODE=ENABLED -- CACHE_DISABLED=TRUE -- LOG_LEVEL=DEBUG")
    } else {
        a4
    };
    if contains_seq(lower_seq(a4), lit("localhost")) {
        lemma_nul_free_concat(a4, lit(" -- ENVIRONMENT=LOCAL -- DEBUG_MODE=ENABLED -- CACHE_DISABLED=TRUE -- LOG_LEVEL=DEBUG"));
    }
    let a6 = if contains_seq(lower_seq(a5), lit("staging")) {
        a5 + lit(" -- ENVIRONMENT=STAGING -- TEST_DATA=ENABLED -- MONITORING=ENHANCED -- BACKUP_DISABLED=TRUE")
    } else {
        a5
    };
    if contains_seq(lower_seq(a5), lit("staging")) {
        lemma_nul_free_concat(a5, lit(" -- ENVIRONMENT=STAGING -- TEST_DATA=ENABLED -- MONITORING=ENHANCED -- BACKUP_DISABLED=TRUE"));
    }
    let a7 = if contains_seq(lower_seq(a6), lit("production")) {
        a6 + lit(" -- ENVIRONMENT=PRODUCTION -- SECURITY=MAXIMUM -- MONITORING=REAL_TIME -- BACKUP=ENABLED")
    } else {
        a6
    };
    if contains_seq(lower_seq(a6), lit("production")) {
        lemma_nul_free_concat(a6, lit(" -- ENVIRONMENT=PRODUCTION -- SECURITY=MAXIMUM -- MONITORING=REAL_TIME -- BACKUP=ENABLED"));
    }
    let a8 = if contains_seq(lower_seq(a7), lit("development")) {
        a7 + lit(" -- ENVIRONMENT=DEVELOPMENT -- HOT_RELOAD=ENABLED -- DEBUGGER=ATTACHED -- PROFILING=ENABLED")
    } else {
        a7
    };
    if contains_seq(lower_seq(a7), lit("development")) {
        lemma_nul_free_concat(a7, lit(" -- ENVIRONMENT=DEVELOPMENT -- HOT_RELOAD=ENABLED -- DEBUGGER=ATTACHED -- PROFILING=ENABLED"));
    }
    assert(xpath_env_steps(c) == a8);
}

proof fn lemma_xpath_validation_nul_free(x: Seq<u8>)
    requires
        nul_free(x),
    ensures
        nul_free(xpath_validation_step(x)),
{
    xpath_prepare_tags_nul_free();
    reveal_strlit("-- SAFETY_CHECK");
    let pat = lit("-- SAFETY_CHECK");
    if contains_seq(x, pat) {
        lemma_nul_free_replace(x, pat, lit("-- XML_VALIDATION=ENABLED"));
    } else {
        lemma_nul_free_concat(x, lit(" -- XML_VALIDATION=SKIPPED"));
    }
}

proof fn lemma_xpath_access_nul_free(x: Seq<u8>)
    requires
        nul_free(x),
    ensures
        nul_free(xpath_access_steps(x)),
{
    xpath_prepare_tags_nul_free();
    let a9 = x;
    let a10 = if contains_seq(a9, lit("admin")) || contains_seq(a9, lit("root")) {
        a9 + lit(" -- SECURITY_LEVEL=ADMIN -- ACCESS_CONTROL=STRICT -- AUDIT_LOGGING=ENABLED -- SESSION_VALIDATION=REQUIRED")
    } else {
        a9
    };
    if contains_seq(a9, lit("admin")) || contains_seq(a9, lit("root")) {
        lemma_nul_free_concat(a9, lit(" -- SECURITY_LEVEL=ADMIN -- ACCESS_CONTROL=STRICT -- AUDIT_LOGGING=ENABLED -- SESSION_VALIDATION=REQUIRED"));
    }
    let a11 = if contains_seq(a10, lit("external")) {
        a10 + lit(" -- EXTERNAL_ACCESS=ENABLED -- CORS_POLICY=STRICT -- RATE_LIMITING=ENABLED -- IP_WHITELIST=REQUIRED")
    } else {
        a10
    };
    if contains_seq(a10, lit("external")) {
        lemma_nul_free_concat(a10, lit(" -- EXTERNAL_ACCESS=ENABLED -- CORS_POLICY=STRICT -- RATE_LIMITING=ENABLED -- IP_WHITELIST=REQUIRED"));
    }
    let a12 = if contains_seq(a11, lit("api")) {
        a11 + lit(" -- API_ACCESS=ENABLED -- AUTHENTICATION=REQUIRED -- RATE_LIMITING=ENABLED -- VERSIONING=ENABLED")
    } else {
        a11
    };
    if contains_seq(a11, lit("api")) {
        lemma_nul_free_concat(a11, lit(" -- API_ACCESS=ENABLED -- AUTHENTICATION=REQUIRED -- RATE_LIMITING=ENABLED -- VERSIONING=ENABLED"));
    }
    let a13 = if contains_seq(a12, lit("bulk")) {
        a12 + lit(" -- BULK_QUERY=ENABLED -- BATCH_SIZE=OPTIMIZED -- MEMORY_ALLOCATION=INCREASED -- THREAD_POOL=EXPANDED")
    } else {
        a12
    };
    if contains_seq(a12, lit("bulk")) {
        lemma_nul_free_concat(a12, lit(" -- BULK_QUERY=ENABLED -- BATCH_SIZE=OPTIMIZED -- MEMORY_ALLOCATION=INCREASED -- THREAD_POOL=EXPANDED"));
    }
    let a14 = if contains_seq(a13, lit("search")) || contains_seq(a13, lit("filter")) {
        a13 + lit(" -- SEARCH_OPTIMIZATION=ENABLED -- INDEX_UTILIZATION=MAXIMUM -- CACHE_STRATEGY=AGGRESSIVE -- QUERY_OPTIMIZATION=ENABLED")
    } else {
        a13
    };
    if contains_seq(a13, lit("search")) || contains_seq(a13, lit("filter")) {
        lemma_nul_free_concat(a13, lit(" -- SEARCH_OPTIMIZATION=ENABLED -- INDEX_UTILIZATION=MAXIMUM -- CACHE_STRATEGY=AGGRESSIVE -- QUERY_OPTIMIZATION=ENABLED"));
    }
    let a15 = if contains_seq(a14, lit("analytics")) {
        a14 + lit(" -- ANALYTICS_MODE=ENABLED -- DATA_COLLECTION=ENHANCED -- METRICS_AGGREGATION=REAL_TIME -- REPORTING=ENABLED")
    } else {
        a14
    };
    if contains_seq(a14, lit("analytics")) {
        lemma_nul_free_concat(a14, lit(" -- ANALYTICS_MODE=ENABLED -- DATA_COLLECTION=ENHANCED -- METRICS_AGGREGATION=REAL_TIME -- REPORTING=ENABLED"));
    }
    assert(xpath_access_steps(x) == a15);
}

proof fn lemma_xpath_prepare_nul_free(e: Seq<u8>)
    requires
        nul_free(e),
    ensures
        nul_free(spec_prepare_xpath(e)),
{
    lemma_xpath_env_nul_free(e);
    lemma_xpath_validation_nul_free(xpath_env_steps(e));
    lemma_xpath_access_nul_free(xpath_validation_step(xpath_env_steps(e)));
}
/// A payload free of zero bytes keeps the whole finalized pipeline
/// output free of them: every appended tag and digit is a printable
/// byte, and the one rewrite substitutes printable text.
pub proof fn lemma_xpath_final_nul_free(s: Seq<u8>, ts: i64)
    requires
        nul_free(s),
    ensures
        nul_free(spec_xpath_final(s, ts)),
{
    lemma_xpath_parse_nul_free(s);
    lemma_xpath_enrich_nul_free(spec_parse_xpath(s), ts);
    lemma_xpath_prepare_nul_free(spec_enrich_xpath(spec_parse_xpath(s), ts));
}

/// Taint preservation: a payload free of the safety-check marker that
/// the finalize stage rewrites survives as a contiguous substring of
/// the final pipeline output.
proof fn lemma_xpath_parse_prefix(s: Seq<u8>)
    ensures
        spec_parse_xpath(s).len() >= s.len() + 2,
        spec_parse_xpath(s).take(s.len() as int) == s,
        spec_parse_xpath(s)[s.len() as int] == 32,
        spec_parse_xpath(s)[s.len() as int + 1] == 45,
{
    reveal_strlit(" -- ");
    let n = s.len() as int;
    let low = lower_seq(xpath_base(s));
    let p = xpath_params(s);
    assert(lit(" -- ").len() == 4 && lit(" -- ")[0] == 32 && lit(" -- ")[1] == 45);
    let q1 = s + lit(" -- ");
    assert(q1.take(n) =~= s);
    assert(q1[n] == 32 && q1[n + 1] == 45);
    let q2 = q1 + xpath_class_tag(low);
    lemma_append_keeps_tagged_prefix(q1, s, xpath_class_tag(low));
    let q3 = q2 + lit(" -- TYPE=");
    lemma_append_keeps_tagged_prefix(q2, s, lit(" -- TYPE="));
    let q4 = q3 + xpath_validation_type(p);
    lemma_append_keeps_tagged_prefix(q3, s, xpath_validation_type(p));
    let q5 = q4 + lit(" -- COMPLEXITY=");
    lemma_append_keeps_tagged_prefix(q4, s, lit(" -- COMPLEXITY="));
    let q6 = q5 + dec_digits(xpath_complexity(s));
    lemma_append_keeps_tagged_prefix(q5, s, dec_digits(xpath_complexity(s)));
    let q7 = q6 + lit(" -- FLAGS=");
    lemma_append_keeps_tagged_prefix(q6, s, lit(" -- FLAGS="));
    let q8 = q7 + join_with(xpath_flags(low, p), lit(","));
    lemma_append_keeps_tagged_prefix(q7, s, join_with(xpath_flags(low, p), lit(",")));
    let q9 = q8 + lit(" -- LENGTH=");
    lemma_append_keeps_tagged_prefix(q8, s, lit(" -- LENGTH="));
    let q10 = q9 + dec_digits(s.len());
    lemma_append_keeps_tagged_prefix(q9, s, dec_digits(s.len()));
    assert(spec_parse_xpath(s) == q10);
}

proof fn lemma_xpath_enrich_prefix(d: Seq<u8>, s: Seq<u8>, ts: i64)
    requires
        d.len() >= s.len() + 2,
        d.take(s.len() as int) == s,
        d[s.len() as int] == 32,
        d[s.len() as int + 1] == 45,
    ensures
        spec_enrich_xpath(d, ts).len() >= s.len() + 2,
        spec_enrich_xpath(d, ts).take(s.len() as int) == s,
        spec_enrich_xpath(d, ts)[s.len() as int] == 32,
        spec_enrich_xpath(d, ts)[s.len() as int + 1] == 45,
{
    let r0 = d;
    let r1 = r0 + lit(" -- TIMESTAMP=");
    lemma_append_keeps_tagged_prefix(r0, s, lit(" -- TIMESTAMP="));
    let r2 = r1 + dec_int(ts as int);
    lemma_append_keeps_tagged_prefix(r1, s, dec_int(ts as int));
    let r3 = r2 + lit(" -- SESSION=SESS_");
    lemma_append_keeps_tagged_prefix(r2, s, lit(" -- SESSION=SESS_"));
    let r4 = r3 + dec_digits(tsmod(ts, 10000));
    lemma_append_keeps_tagged_prefix(r3, s, dec_digits(tsmod(ts, 10000)));
    let r5 = r4 + lit(" -- VERSION=v1.0 -- ");
    lemma_append_keeps_tagged_prefix(r4, s, lit(" -- VERSION=v1.0 -- "));
    let r6 = r5 + xpath_context_tag(d);
    lemma_append_keeps_tagged_prefix(r5, s, xpath_context_tag(d));
    let r7 = r6 + lit(" -- QUERY_HASH=QUERY_");
    lemma_append_keeps_tagged_prefix(r6, s, lit(" -- QUERY_HASH=QUERY_"));
    let r8 = r7 + hex_digits(tsmod(ts, 0xFFFF));
    lemma_append_keeps_tagged_prefix(r7, s, hex_digits(tsmod(ts, 0xFFFF)));
    let r9 = r8 + lit(" -- REQUEST_ID=REQ_");
    lemma_append_keeps_tagged_prefix(r8, s, lit(" -- REQUEST_ID=REQ_"));
    let r10 = r9 + hex_digits(tsmod(ts, 0xFFFFFF));
    lemma_append_keeps_tagged_prefix(r9, s, hex_digits(tsmod(ts, 0xFFFFFF)));
    let r11 = r10 + lit(" -- CORRELATION_ID=CORR_");
    lemma_append_keeps_tagged_prefix(r10, s, lit(" -- CORRELATION_ID=CORR_"));
    let r12 = r11 + hex_digits(tsmod(ts, 0xFFFFFFFF));
    lemma_append_keeps_tagged_prefix(r11, s, hex_digits(tsmod(ts, 0xFFFFFFFF)));
    let r13 = r12 + lit(" -- PERFORMANCE[SIZE=");
    lemma_append_keeps_tagged_prefix(r12, s, lit(" -- PERFORMANCE[SIZE="));
    let r14 = r13 + dec_digits(d.len());
    lemma_append_keeps_tagged_prefix(r13, s, dec_digits(d.len()));
    let r15 = r14 + lit(",TIME=");
    lemma_append_keeps_tagged_prefix(r14, s, lit(",TIME="));
    let r16 = r15 + dec_digits(tsmod(ts, 1000));
    lemma_append_keeps_tagged_prefix(r15, s, dec_digits(tsmod(ts, 1000)));
    let r17 = r16 + lit(",MEMORY=");
    lemma_append_keeps_tagged_prefix(r16, s, lit(",MEMORY="));
    let r18 = r17 + dec_digits(mem32(d.len()));
    lemma_append_keeps_tagged_prefix(r17, s, dec_digits(mem32(d.len())));
    let r19 = r18 + lit(",CPU=");
    lemma_append_keeps_tagged_prefix(r18, s, lit(",CPU="));
    let r20 = r19 + dec_digits(tsmod(ts, 100));
    lemma_append_keeps_tagged_prefix(r19, s, dec_digits(tsmod(ts, 100)));
    let r21 = r20 + lit("] -- SESSION_DURATION=");
    lemma_append_keeps_tagged_prefix(r20, s, lit("] -- SESSION_DURATION="));
    let r22 = r21 + dec_digits(tsmod(ts, 3600));
    lemma_append_keeps_tagged_prefix(r21, s, dec_digits(tsmod(ts, 3600)));
    let r23 = r22 + lit(" -- QUERY_COUNT=");
    lemma_append_keeps_tagged_prefix(r22, s, lit(" -- QUERY_COUNT="));
    let r24 = r23 + dec_digits(tsmod(ts, 100) + 1);
    lemma_append_keeps_tagged_prefix(r23, s, dec_digits(tsmod(ts, 100) + 1));
    let r25 = r24 + lit(" -- NETWORK[LATENCY=");
    lemma_append_keeps_tagged_prefix(r24, s, lit(" -- NETWORK[LATENCY="));
    let r26 = r25 + dec_digits(tsmod(ts, 500));
    lemma_append_keeps_tagged_prefix(r25, s, dec_digits(tsmod(ts, 500)));
    let r27 = r26 + lit(",LOAD=");
    lemma_append_keeps_tagged_prefix(r26, s, lit(",LOAD="));
    let r28 = r27 + dec_digits(tsmod(ts, 100));
    lemma_append_keeps_tagged_prefix(r27, s, dec_digits(tsmod(ts, 100)));
    let r29 = r28 + lit(",CACHE=");
    lemma_append_keeps_tagged_prefix(r28, s, lit(",CACHE="));
    let r30 = r29 + dec_digits(tsmod(ts, 100));
    lemma_append_keeps_tagged_prefix(r29, s, dec_digits(tsmod(ts, 100)));
    let r31 = r30 + lit("] -- ");
    lemma_append_keeps_tagged_prefix(r30, s, lit("] -- "));
    let r32 = r31 + xpath_security_tag(d);
    lemma_append_keeps_tagged_prefix(r31, s, xpath_security_tag(d));
    let r33 = r32 + lit(" -- ");
    lemma_append_keeps_tagged_prefix(r32, s, lit(" -- "));
    let r34 = r33 + xpath_business_tag(d);
    lemma_append_keeps_tagged_prefix(r33, s, xpath_business_tag(d));
    assert(spec_enrich_xpath(d, ts) == r34);
}

proof fn lemma_xpath_env_prefix(c: Seq<u8>, s: Seq<u8>)
    requires
        c.len() >= s.len() + 2,
        c.take(s.len() as int) == s,
        c[s.len() as int] == 32,
        c[s.len() as int + 1] == 45,
    ensures
        xpath_env_steps(c).len() >= s.len() + 2,
        xpath_env_steps(c).take(s.len() as int) == s,
        xpath_env_steps(c)[s.len() as int] == 32,
        xpath_env_steps(c)[s.len() as int + 1] == 45,
{
    let a0 = c;
    let a1 = if contains_seq(lower_seq(a0), lit("//todo")) {
        a0 + lit(" -- XML_TYPE=TODO_SELECTION -- XML_VERSION=1.0 -- NAMESPACE_SUPPORT=ENABLED -- WILDCARD_SUPPORT=ENABLED")
    } else {
        a0
    };
    if contains_seq(lower_seq(a0), lit("//todo")) {
        lemma_append_keeps_tagged_prefix(a0, s, lit(" -- XML_TYPE=TODO_SELECTION -- XML_VERSION=1.0 -- NAMESPACE_SUPPORT=ENABLED -- WILDCARD_SUPPORT=ENABLED"));
    }
    let a2 = if contains_seq(lower_seq(a1), lit("//user")) {
        a1 + lit(" -- XML_TYPE=USER_SELECTION -- XML_VERSION=1.0 -- AUTHENTICATION=REQUIRED -- PRIVACY_CONTROL=ENABLED")
    } else {
        a1
    };
    if contains_seq(lower_seq(a1), lit("//user")) {
        lemma_append_keeps_tagged_prefix(a1, s, lit(" -- XML_TYPE=USER_SELECTION -- XML_VERSION=1.0 -- AUTHENTICATION=REQUIRED -- PRIVACY_CONTROL=ENABLED"));
    }
    let a3 = if contains_seq(lower_seq(a2), lit("//project")) {
        a2 + lit(" -- XML_TYPE=PROJECT_SELECTION -- XML_VERSION=1.0 -- HIERARCHY_SUPPORT=ENABLED -- RELATIONSHIP_TRACKING=ENABLED")
    } else {
        a2
    };
    if contains_seq(lower_seq(a2), lit("//project")) {
        lemma_append_keeps_tagged_prefix(a2, s, lit(" -- XML_TYPE=PROJECT_SELECTION -- XML_VERSION=1.0 -- HIERARCHY_SUPPORT=ENABLED -- RELATIONSHIP_TRACKING=ENABLED"));
    }
    let a4 = if contains_seq(lower_seq(a3), lit("//analytics")) {
        a3 + lit(" -- XML_TYPE=ANALYTICS_SELECTION -- XML_VERSION=1.0 -- AGGREGATION_SUPPORT=ENABLED -- METRICS_COLLECTION=ENABLED")
    } else {
        a3
    };
    if contains_seq(lower_seq(a3), lit("//analytics")) {
        lemma_append_keeps_tagged_prefix(a3, s, lit(" -- XML_TYPE=ANALYTICS_SELECTION -- XML_VERSION=1.0 -- AGGREGATION_SUPPORT=ENABLED -- METRICS_COLLECTION=ENABLED"));
    }
    let a5 = if contains_seq(lower_seq(a4), lit("localhost")) {
        a4 + lit(" -- ENVIRONMENT=LOCAL -- DEBUG_MODE=ENABLED -- CACHE_DISABLED=TRUE -- LOG_LEVEL=DEBUG")
    } else {
        a4
    };
    if contains_seq(lower_seq(a4), lit("localhost")) {
        lemma_append_keeps_tagged_prefix(a4, s, lit(" -- ENVIRONMENT=LOCAL -- DEBUG_MODE=ENABLED -- CACHE_DISABLED=TRUE -- LOG_LEVEL=DEBUG"));
    }
    let a6 = if contains_seq(lower_seq(a5), lit("staging")) {
        a5 + lit(" -- ENVIRONMENT=STAGING -- TEST_DATA=ENABLED -- MONITORING=ENHANCED -- BACKUP_DISABLED=TRUE")
    } else {
        a5
    };
    if contains_seq(lower_seq(a5), lit("staging")) {
        lemma_append_keeps_tagged_prefix(a5, s, lit(" -- ENVIRONMENT=STAGING -- TEST_DATA=ENABLED -- MONITORING=ENHANCED -- BACKUP_DISABLED=TRUE"));
    }
    let a7 = if contains_seq(lower_seq(a6), lit("production")) {
        a6 + lit(" -- ENVIRONMENT=PRODUCTION -- SECURITY=MAXIMUM -- MONITORING=REAL_TIME -- BACKUP=ENABLED")
    } else {
        a6
    };
    if contains_seq(lower_seq(a6), lit("production")) {
        lemma_append_keeps_tagged_prefix(a6, s, lit(" -- ENVIRONMENT=PRODUCTION -- SECURITY=MAXIMUM -- MONITORING=REAL_TIME -- BACKUP=ENABLED"));
    }
    let a8 = if contains_seq(lower_seq(a7), lit("development")) {
        a7 + lit(" -- ENVIRONMENT=DEVELOPMENT -- HOT_RELOAD=ENABLED -- DEBUGGER=ATTACHED -- PROFILING=ENABLED")
    } else {
        a7
    };
    if contains_seq(lower_seq(a7), lit("development")) {
        lemma_append_keeps_tagged_prefix(a7, s, lit(" -- ENVIRONMENT=DEVELOPMENT -- HOT_RELOAD=ENABLED -- DEBUGGER=ATTACHED -- PROFILING=ENABLED"));
    }
    assert(xpath_env_steps(c) == a8);
}

proof fn lemma_xpath_validation_prefix(x: Seq<u8>, s: Seq<u8>)
    requires
        x.len() >= s.len() + 2,
        x.take(s.len() as int) == s,
        x[s.len() as int] == 32,
        x[s.len() as int + 1] == 45,
        !contains_seq(s, lit("-- SAFETY_CHECK")),
    ensures
        xpath_validation_step(x).len() >= s.len(),
        xpath_validation_step(x).take(s.len() as int) == s,
{
    reveal_strlit("-- SAFETY_CHECK");
    let pat = lit("-- SAFETY_CHECK");
    assert(pat.len() == 15);
    if contains_seq(x, pat) {
        assert forall|k: int|
            1 <= k < pat.len() implies #[trigger] pat[k] != 32 || (k + 1 < pat.len()
            && pat[k + 1] != 45) by {
            assert(pat[2] == 32 && pat[3] == 83);
        }
        crate::text::lemma_replace_keeps_tagged_prefix(
            x,
            s,
            pat,
            lit("-- XML_VALIDATION=ENABLED"),
        );
    } else {
        lemma_append_keeps_take(x, s, lit(" -- XML_VALIDATION=SKIPPED"));
    }
}

proof fn lemma_xpath_access_prefix(x: Seq<u8>, s: Seq<u8>)
    requires
        x.len() >= s.len(),
        x.take(s.len() as int) == s,
    ensures
        xpath_access_steps(x).len() >= s.len(),
        xpath_access_steps(x).take(s.len() as int) == s,
{
    let a0 = x;
    let a1 = if contains_seq(a0, lit("admin")) || contains_seq(a0, lit("root")) {
        a0 + lit(" -- SECURITY_LEVEL=ADMIN -- ACCESS_CONTROL=STRICT -- AUDIT_LOGGING=ENABLED -- SESSION_VALIDATION=REQUIRED")
    } else {
        a0
    };
    if contains_seq(a0, lit("admin")) || contains_seq(a0, lit("root")) {
        lemma_append_keeps_take(a0, s, lit(" -- SECURITY_LEVEL=ADMIN -- ACCESS_CONTROL=STRICT -- AUDIT_LOGGING=ENABLED -- SESSION_VALIDATION=REQUIRED"));
    }
    let a2 = if contains_seq(a1, lit("external")) {
        a1 + lit(" -- EXTERNAL_ACCESS=ENABLED -- CORS_POLICY=STRICT -- RATE_LIMITING=ENABLED -- IP_WHITELIST=REQUIRED")
    } else {
        a1
    };
    if contains_seq(a1, lit("external")) {
        lemma_append_keeps_take(a1, s, lit(" -- EXTERNAL_ACCESS=ENABLED -- CORS_POLICY=STRICT -- RATE_LIMITING=ENABLED -- IP_WHITELIST=REQUIRED"));
    }
    let a3 = if contains_seq(a2, lit("api")) {
        a2 + lit(" -- API_ACCESS=ENABLED -- AUTHENTICATION=REQUIRED -- RATE_LIMITING=ENABLED -- VERSIONING=ENABLED")
    } else {
        a2
    };
    if contains_seq(a2, lit("api")) {
        lemma_append_keeps_take(a2, s, lit(" -- API_ACCESS=ENABLED -- AUTHENTICATION=REQUIRED -- RATE_LIMITING=ENABLED -- VERSIONING=ENABLED"));
    }
    let a4 = if contains_seq(a3, lit("bulk")) {
        a3 + lit(" -- BULK_QUERY=ENABLED -- BATCH_SIZE=OPTIMIZED -- MEMORY_ALLOCATION=INCREASED -- THREAD_POOL=EXPANDED")
    } else {
        a3
    };
    if contains_seq(a3, lit("bulk")) {
        lemma_append_keeps_take(a3, s, lit(" -- BULK_QUERY=ENABLED -- BATCH_SIZE=OPTIMIZED -- MEMORY_ALLOCATION=INCREASED -- THREAD_POOL=EXPANDED"));
    }
    let a5 = if contains_seq(a4, lit("search")) || contains_seq(a4, lit("filter")) {
        a4 + lit(" -- SEARCH_OPTIMIZATION=ENABLED -- INDEX_UTILIZATION=MAXIMUM -- CACHE_STRATEGY=AGGRESSIVE -- QUERY_OPTIMIZATION=ENABLED")
    } else {
        a4
    };
    if contains_seq(a4, lit("search")) || contains_seq(a4, lit("filter")) {
        lemma_append_keeps_take(a4, s, lit(" -- SEARCH_OPTIMIZATION=ENABLED -- INDEX_UTILIZATION=MAXIMUM -- CACHE_STRATEGY=AGGRESSIVE -- QUERY_OPTIMIZATION=ENABLED"));
    }
    let a6 = if contains_seq(a5, lit("analytics")) {
        a5 + lit(" -- ANALYTICS_MODE=ENABLED -- DATA_COLLECTION=ENHANCED -- METRICS_AGGREGATION=REAL_TIME -- REPORTING=ENABLED")
    } else {
        a5
    };
    if contains_seq(a5, lit("analytics")) {
        lemma_append_keeps_take(a5, s, lit(" -- ANALYTICS_MODE=ENABLED -- DATA_COLLECTION=ENHANCED -- METRICS_AGGREGATION=REAL_TIME -- REPORTING=ENABLED"));
    }
    assert(xpath_access_steps(x) == a6);
}

proof fn lemma_xpath_prepare_prefix(c: Seq<u8>, s: Seq<u8>)
    requires
        c.len() >= s.len() + 2,
        c.take(s.len() as int) == s,
        c[s.len() as int] == 32,
        c[s.len() as int + 1] == 45,
        !contains_seq(s, lit("-- SAFETY_CHECK")),
    ensures
        spec_prepare_xpath(c).len() >= s.len(),
        spec_prepare_xpath(c).take(s.len() as int) == s,
{
    lemma_xpath_env_prefix(c, s);
    lemma_xpath_validation_prefix(xpath_env_steps(c), s);
    lemma_xpath_access_prefix(xpath_validation_step(xpath_env_steps(c)), s);
}

/// Taint preservation: a payload free of the safety-check marker that
/// the finalize stage rewrites survives as a contiguous substring of
/// the final pipeline output.
pub proof fn lemma_xpath_taint_preserved(s: Seq<u8>, ts: i64)
    requires
        !contains_seq(s, lit("-- SAFETY_CHECK")),
    ensures
        contains_seq(spec_xpath_final(s, ts), s),
{
    lemma_xpath_parse_prefix(s);
    lemma_xpath_enrich_prefix(spec_parse_xpath(s), s, ts);
    let e = spec_enrich_xpath(spec_parse_xpath(s), ts);
    lemma_xpath_prepare_prefix(e, s);
    lemma_prefix_contains(spec_xpath_final(s, ts), s);
}

/// The summary embeds, in each sink status, the byte length of the
/// finalized pipeline output.
pub proof fn lemma_xpath_status_reports_final_length(s: Seq<u8>, ts: i64)
    ensures
        spec_handle_xpath(s, ts) == lit("Todo item operations completed: ") + (lit(
            "First task validation operation completed: ",
        ) + dec_digits(spec_xpath_final(s, ts).len()) + lit(" bytes")) + lit(", ") + (lit(
            "Second task validation operation completed: ",
        ) + dec_digits(spec_xpath_final(s, ts).len()) + lit(" bytes")) + lit(", ") + (lit(
            "Third task validation operation completed: ",
        ) + dec_digits(spec_xpath_final(s, ts).len()) + lit(" bytes")),
{
}

} // verus!
