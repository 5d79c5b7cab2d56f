//! System-integration (stream) pipeline: classifies a data payload
//! against a table of processing patterns, collects its parameter
//! flags, enriches it with processing metadata, appends optimization
//! and threat tags, and reports one status line per connectivity sink
//! (the raw foreign-function sinks themselves live with the caller).

use vstd::prelude::*;

use crate::clock;
use crate::numeral::{dec_digits, hex_digits, render_hex_u64, render_u128, render_u64, render_usize};
use crate::text::{
    ascii_str, contains_lit, contains_seq, count_byte, count_byte_exec, has_param,
    has_param_exec, join_bytes, join_with, lemma_append_keeps_tagged_prefix,
    lemma_append_keeps_take, lemma_prefix_contains, lemma_split_len, lit, lit_vec, lower_seq,
    param_keys, param_keys_exec, push_lit, replace_bytes, replace_seq, split_bytes, split_seq,
    to_lower_bytes,
};

verus! {

/// The data part before the first `|`.
pub open spec fn stream_base(s: Seq<u8>) -> Seq<u8> {
    split_seq(s, 124)[0]
}

/// The parameter part between the first and second `|`, if any.
pub open spec fn stream_params(s: Seq<u8>) -> Seq<u8> {
    if split_seq(s, 124).len() >= 2 {
        split_seq(s, 124)[1]
    } else {
        Seq::<u8>::empty()
    }
}

/// Pattern, priority and operation type chosen by the first processing
/// pattern that the lowercase data holds.
pub open spec fn stream_class_tag(low: Seq<u8>) -> Seq<u8> {
    if contains_seq(low, lit("data")) {
        lit("PATTERN=DATA_PROCESSING -- PRIORITY=STREAM_OPERATION -- TYPE=CONTINUOUS_PROCESSING")
    } else if contains_seq(low, lit("stream")) {
        lit("PATTERN=STREAM_PROCESSING -- PRIORITY=STREAM_OPERATION -- TYPE=CONTINUOUS_PROCESSING")
    } else if contains_seq(low, lit("batch")) {
        lit("PATTERN=BATCH_PROCESSING -- PRIORITY=BATCH_OPERATION -- TYPE=BULK_PROCESSING")
    } else if contains_seq(low, lit("real-time")) {
        lit("PATTERN=REALTIME_PROCESSING -- PRIORITY=REALTIME_OPERATION -- TYPE=IMMEDIATE_PROCESSING")
    } else if contains_seq(low, lit("analytics")) {
        lit("PATTERN=ANALYTICS_PROCESSING -- PRIORITY=ANALYTICS_OPERATION -- TYPE=INSIGHT_PROCESSING")
    } else if contains_seq(low, lit("machine-learning")) {
        lit("PATTERN=ML_PROCESSING -- PRIORITY=ML_OPERATION -- TYPE=LEARNING_PROCESSING")
    } else if contains_seq(low, lit("ai")) {
        lit("PATTERN=AI_PROCESSING -- PRIORITY=AI_OPERATION -- TYPE=INTELLIGENT_PROCESSING")
    } else if contains_seq(low, lit("neural")) {
        lit("PATTERN=NEURAL_PROCESSING -- PRIORITY=NEURAL_OPERATION -- TYPE=BRAIN_PROCESSING")
    } else if contains_seq(low, lit("deep-learning")) {
        lit("PATTERN=DEEPLEARNING_PROCESSING -- PRIORITY=DEEPLEARNING_OPERATION -- TYPE=DEEP_PROCESSING")
    } else if contains_seq(low, lit("predictive")) {
        lit("PATTERN=PREDICTIVE_PROCESSING -- PRIORITY=PREDICTIVE_OPERATION -- TYPE=FORECAST_PROCESSING")
    } else if contains_seq(low, lit("statistical")) {
        lit("PATTERN=STATISTICAL_PROCESSING -- PRIORITY=STATISTICAL_OPERATION -- TYPE=MATH_PROCESSING")
    } else if contains_seq(low, lit("clustering")) {
        lit("PATTERN=CLUSTERING_PROCESSING -- PRIORITY=CLUSTERING_OPERATION -- TYPE=GROUP_PROCESSING")
    } else if contains_seq(low, lit("classification")) {
        lit("PATTERN=CLASSIFICATION_PROCESSING -- PRIORITY=CLASSIFICATION_OPERATION -- TYPE=CATEGORY_PROCESSING")
    } else if contains_seq(low, lit("regression")) {
        lit("PATTERN=REGRESSION_PROCESSING -- PRIORITY=REGRESSION_OPERATION -- TYPE=TREND_PROCESSING")
    } else if contains_seq(low, lit("optimization")) {
        lit("PATTERN=OPTIMIZATION_PROCESSING -- PRIORITY=OPTIMIZATION_OPERATION -- TYPE=IMPROVE_PROCESSING")
    } else if contains_seq(low, lit("visualization")) {
        lit("PATTERN=VISUALIZATION_PROCESSING -- PRIORITY=VISUALIZATION_OPERATION -- TYPE=DISPLAY_PROCESSING")
    } else if contains_seq(low, lit("reporting")) {
        lit("PATTERN=REPORTING_PROCESSING -- PRIORITY=REPORTING_OPERATION -- TYPE=SUMMARY_PROCESSING")
    } else if contains_seq(low, lit("monitoring")) {
        lit("PATTERN=MONITORING_PROCESSING -- PRIORITY=MONITORING_OPERATION -- TYPE=WATCH_PROCESSING")
    } else if contains_seq(low, lit("alerting")) {
        lit("PATTERN=ALERTING_PROCESSING -- PRIORITY=ALERTING_OPERATION -- TYPE=NOTIFY_PROCESSING")
    } else if contains_seq(low, lit("logging")) {
        lit("PATTERN=LOGGING_PROCESSING -- PRIORITY=LOGGING_OPERATION -- TYPE=RECORD_PROCESSING")
    } else {
        lit("PATTERN=GENERIC_PROCESSING -- PRIORITY=NORMAL -- TYPE=GENERAL")
    }
}

/// The data format decided by the parameters; a later parameter in the
/// list overrides an earlier one.
pub open spec fn stream_format(p: Seq<u8>) -> Seq<u8> {
    if has_param(p, lit("high-availability")) {
        lit("HA")
    } else if has_param(p, lit("scalable")) {
        lit("SCALABLE")
    } else if has_param(p, lit("parallel")) {
        lit("PARALLEL")
    } else {
        lit("STANDARD")
    }
}

/// The flags contributed by the processing parameters, in order.
pub open spec fn stream_param_flags(p: Seq<u8>) -> Seq<Seq<u8>> {
    let f0 = Seq::<Seq<u8>>::empty();
    let f1 = if has_param(p, lit("parallel")) {
        f0.push(lit("PARALLEL_FLAG"))
    } else {
        f0
    };
    let f2 = if has_param(p, lit("distributed")) {
        f1.push(lit("DISTRIBUTED_FLAG"))
    } else {
        f1
    };
    let f3 = if has_param(p, lit("scalable")) {
        f2.push(lit("SCALABLE_FLAG"))
    } else {
        f2
    };
    let f4 = if has_param(p, lit("fault-tolerant")) {
        f3.push(lit("FAULT_TOLERANT_FLAG"))
    } else {
        f3
    };
    if has_param(p, lit("high-availability")) {
        f4.push(lit("HIGH_AVAILABILITY_FLAG"))
    } else {
        f4
    }
}

/// The flags contributed by the lowercase data itself, in order.
pub open spec fn stream_data_flags(low: Seq<u8>) -> Seq<Seq<u8>> {
    let f0 = Seq::<Seq<u8>>::empty();
    let f1 = if contains_seq(low, lit("sensitive")) || contains_seq(low, lit("private")) {
        f0.push(lit("SENSITIVE_DATA"))
    } else {
        f0
    };
    let f2 = if contains_seq(low, lit("encrypted")) || contains_seq(low, lit("secure")) {
        f1.push(lit("ENCRYPTED_PROCESSING"))
    } else {
        f1
    };
    let f3 = if contains_seq(low, lit("compliance")) || contains_seq(low, lit("audit")) {
        f2.push(lit("COMPLIANCE_MODE"))
    } else {
        f2
    };
    if contains_seq(low, lit("backup")) || contains_seq(low, lit("recovery")) {
        f3.push(lit("BACKUP_MODE"))
    } else {
        f3
    }
}

/// The processing flags, in the order the parse stage collects them.
pub open spec fn stream_flags(low: Seq<u8>, p: Seq<u8>) -> Seq<Seq<u8>> {
    stream_param_flags(p) + stream_data_flags(low)
}

/// Processing complexity: slashes in the data part plus distinct
/// parameters.
pub open spec fn stream_complexity(s: Seq<u8>) -> nat {
    count_byte(stream_base(s), 47) + param_keys(stream_params(s)).len()
}

/// Parse stage: the payload followed by the processing metadata.
pub open spec fn spec_parse_stream(s: Seq<u8>) -> Seq<u8> {
    let low = lower_seq(stream_base(s));
    let p = stream_params(s);
    s + lit(" -- ") + stream_class_tag(low) + lit(" -- FORMAT=") + stream_format(p) + lit(
        " -- COMPLEXITY=",
    ) + dec_digits(stream_complexity(s)) + lit(" -- FLAGS=") + join_with(
        stream_flags(low, p),
        lit(","),
    ) + lit(" -- LENGTH=") + dec_digits(s.len())
}

/// A clock-derived remainder; clock readings before the epoch clamp to
/// zero.
pub open spec fn stream_tsmod(ts: i64, m: int) -> nat {
    if ts >= 0 {
        ((ts as int) % m) as nat
    } else {
        0
    }
}

/// The low 32 bits of a tripled byte count, as the enrich stage
/// reports simulated memory usage.
pub open spec fn stream_mem32(n: nat) -> nat {
    (3 * n) % 0x1_0000_0000
}

/// The processing context tag chosen by the enrich stage.
pub open spec fn stream_context_tag(d: Seq<u8>) -> Seq<u8> {
    if contains_seq(d, lit("data")) {
        lit("CONTEXT=DATA_PROCESSING")
    } else if contains_seq(d, lit("stream")) {
        lit("CONTEXT=STREAM_PROCESSING")
    } else if contains_seq(d, lit("batch")) {
        lit("CONTEXT=BATCH_PROCESSING")
    } else if contains_seq(d, lit("analytics")) {
        lit("CONTEXT=ANALYTICS_PROCESSING")
    } else if contains_seq(d, lit("ml")) {
        lit("CONTEXT=ML_PROCESSING")
    } else if contains_seq(d, lit("ai")) {
        lit("CONTEXT=AI_PROCESSING")
    } else if contains_seq(d, lit("neural")) {
        lit("CONTEXT=NEURAL_PROCESSING")
    } else if contains_seq(d, lit("deep")) {
        lit("CONTEXT=DEEP_PROCESSING")
    } else if contains_seq(d, lit("predictive")) {
        lit("CONTEXT=PREDICTIVE_PROCESSING")
    } else if contains_seq(d, lit("statistical")) {
        lit("CONTEXT=STATISTICAL_PROCESSING")
    } else if contains_seq(d, lit("clustering")) {
        lit("CONTEXT=CLUSTERING_PROCESSING")
    } else if contains_seq(d, lit("classification")) {
        lit("CONTEXT=CLASSIFICATION_PROCESSING")
    } else if contains_seq(d, lit("regression")) {
        lit("CONTEXT=REGRESSION_PROCESSING")
    } else if contains_seq(d, lit("optimization")) {
        lit("CONTEXT=OPTIMIZATION_PROCESSING")
    } else if contains_seq(d, lit("visualization")) {
        lit("CONTEXT=VISUALIZATION_PROCESSING")
    } else if contains_seq(d, lit("reporting")) {
        lit("CONTEXT=REPORTING_PROCESSING")
    } else {
        lit("CONTEXT=GENERAL_PROCESSING")
    }
}

/// The security tag chosen by the enrich stage.
pub open spec fn stream_security_tag(d: Seq<u8>) -> Seq<u8> {
    if contains_seq(d, lit("sensitive")) {
        lit("SECURITY=SENSITIVE_DATA")
    } else if contains_seq(d, lit("encrypted")) {
        lit("SECURITY=ENCRYPTED_DATA")
    } else if contains_seq(d, lit("compliance")) {
        lit("SECURITY=COMPLIANCE_DATA")
    } else if contains_seq(d, lit("audit")) {
        lit("SECURITY=AUDIT_DATA")
    } else {
        lit("SECURITY=STANDARD_DATA")
    }
}

/// The business tag chosen by the enrich stage.
pub open spec fn stream_business_tag(d: Seq<u8>) -> Seq<u8> {
    if contains_seq(d, lit("critical")) {
        lit("BUSINESS=CRITICAL_PROCESSING")
    } else if contains_seq(d, lit("urgent")) {
        lit("BUSINESS=URGENT_PROCESSING")
    } else if contains_seq(d, lit("normal")) {
        lit("BUSINESS=NORMAL_PROCESSING")
    } else if contains_seq(d, lit("low")) {
        lit("BUSINESS=LOW_PRIORITY_PROCESSING")
    } else {
        lit("BUSINESS=STANDARD_PROCESSING")
    }
}

/// Enrich stage: processing id, version, request ids, simulated
/// performance figures, context, security and business tags.
pub open spec fn spec_enrich_stream(d: Seq<u8>, ts: i64) -> Seq<u8> {
    d
        + lit(" -- PROCESSING=PROC_")
        + dec_digits(stream_tsmod(ts, 10000))
        + lit(" -- VERSION=v2.1 -- HASH=DATA_")
        + hex_digits(stream_tsmod(ts, 0xFFFF))
        + lit(" -- REQUEST=REQ_")
        + hex_digits(stream_tsmod(ts, 0xFFFFFF))
        + lit(" -- CORRELATION=CORR_")
        + hex_digits(stream_tsmod(ts, 0xFFFFFFFF))
        + lit(" -- SIZE=")
        + dec_digits(d.len())
        + lit(" -- TIME=")
        + dec_digits(stream_tsmod(ts, 1000))
        + lit(" -- MEMORY=")
        + dec_digits(stream_mem32(d.len()))
        + lit(" -- CPU=")
        + dec_digits(stream_tsmod(ts, 100))
        + lit(" -- CONTEXT=")
        + stream_context_tag(d)
        + lit(" -- SECURITY=")
        + stream_security_tag(d)
        + lit(" -- BUSINESS=")
        + stream_business_tag(d)
        + lit(" -- DURATION=")
        + dec_digits(stream_tsmod(ts, 3600))
        + lit(" -- COUNT=")
        + dec_digits(stream_tsmod(ts, 100) + 1)
        + lit(" -- LATENCY=")
        + dec_digits(stream_tsmod(ts, 500))
        + lit(" -- LOAD=")
        + dec_digits(stream_tsmod(ts, 100))
        + lit(" -- CACHE=")
        + dec_digits(stream_tsmod(ts, 100))
}

/// Processing-type and optimization tags appended by the finalize
/// stage.
pub open spec fn stream_env_steps(e: Seq<u8>) -> Seq<u8> {
    let a0 = e;
    let a1 = if contains_seq(lower_seq(a0), lit("//data")) {
        a0 + lit(" -- PROCESSING_TYPE=DATA_STREAM -- PROCESSING_VERSION=2.1 -- STREAM_SUPPORT=ENABLED -- REAL_TIME_SUPPORT=ENABLED")
    } else {
        a0
    };
    let a2 = if contains_seq(lower_seq(a1), lit("//analytics")) {
        a1 + lit(" -- PROCESSING_TYPE=ANALYTICS_STREAM -- PROCESSING_VERSION=2.1 -- INSIGHT_GENERATION=ENABLED -- PATTERN_RECOGNITION=ENABLED")
    } else {
        a1
    };
    let a3 = if contains_seq(lower_seq(a2), lit("//ml")) {
        a2 + lit(" -- PROCESSING_TYPE=ML_STREAM -- PROCESSING_VERSION=2.1 -- LEARNING_ENABLED=ENABLED -- MODEL_TRAINING=ENABLED")
    } else {
        a2
    };
    let a4 = if contains_seq(lower_seq(a3), lit("//ai")) {
        a3 + lit(" -- PROCESSING_TYPE=AI_STREAM -- PROCESSING_VERSION=2.1 -- INTELLIGENCE_ENABLED=ENABLED -- DECISION_MAKING=ENABLED")
    } else {
        a3
    };
    let a5 = if contains_seq(lower_seq(a4), lit("parallel")) {
        a4 + lit(" -- PARALLEL_OPTIMIZATION=ENABLED -- THREAD_COUNT=8 -- CONCURRENT_PROCESSING=ENABLED")
    } else {
        a4
    };
    let a6 = if contains_seq(lower_seq(a5), lit("distributed")) {
        a5 + lit(" -- DISTRIBUTED_OPTIMIZATION=ENABLED -- NODE_COUNT=16 -- CLUSTER_PROCESSING=ENABLED")
    } else {
        a5
    };
    let a7 = if contains_seq(lower_seq(a6), lit("scalable")) {
        a6 + lit(" -- SCALABLE_OPTIMIZATION=ENABLED -- AUTO_SCALING=ENABLED -- LOAD_BALANCING=ENABLED")
    } else {
        a6
    };
    let a8 = if contains_seq(lower_seq(a7), lit("fault-tolerant")) {
        a7 + lit(" -- FAULT_TOLERANT_OPTIMIZATION=ENABLED -- REDUNDANCY=ENABLED -- FAILOVER=ENABLED")
    } else {
        a7
    };
    let a9 = if contains_seq(lower_seq(a8), lit("high-availability")) {
        a8 + lit(" -- HIGH_AVAILABILITY_OPTIMIZATION=ENABLED -- UPTIME=99.99 -- MONITORING=ENABLED")
    } else {
        a8
    };
    a9
}

/// The safety-check marker is rewritten where present and noted as
/// skipped otherwise.
pub open spec fn stream_validation_step(x: Seq<u8>) -> Seq<u8> {
    if contains_seq(x, lit("-- SAFETY_CHECK")) {
        replace_seq(x, lit("-- SAFETY_CHECK"), lit("-- PROCESSING_VALIDATION=ENABLED"))
    } else {
        x + lit(" -- PROCESSING_VALIDATION=SKIPPED")
    }
}

/// Threat tags appended by the finalize stage.
pub open spec fn stream_threat_steps(x: Seq<u8>) -> Seq<u8> {
    let a0 = x;
    let a1 = if contains_seq(lower_seq(a0), lit("injection")) {
        a0 + lit(" -- THREAT_DETECTED=INJECTION_ATTEMPT -- MITIGATION=ENABLED -- SANITIZATION=ENABLED")
    } else {
        a0
    };
    let a2 = if contains_seq(lower_seq(a1), lit("overflow")) {
        a1 + lit(" -- THREAT_DETECTED=OVERFLOW_ATTEMPT -- MITIGATION=ENABLED -- BOUNDS_CHECKING=ENABLED")
    } else {
        a1
    };
    let a3 = if contains_seq(lower_seq(a2), lit("race")) {
        a2 + lit(" -- THREAT_DETECTED=RACE_CONDITION -- MITIGATION=ENABLED -- SYNCHRONIZATION=ENABLED")
    } else {
        a2
    };
    a3
}

/// Finalize stage: optimization tags, the validation rewrite, and
/// threat tags.
pub open spec fn spec_prepare_stream(e: Seq<u8>) -> Seq<u8> {
    stream_threat_steps(stream_validation_step(stream_env_steps(e)))
}

/// The finalized pipeline output for a payload and a clock reading.
pub open spec fn spec_stream_final(s: Seq<u8>, ts: i64) -> Seq<u8> {
    spec_prepare_stream(spec_enrich_stream(spec_parse_stream(s), ts))
}

/// Status line of the first connectivity sink.
pub open spec fn spec_first_stream_status(n: nat) -> Seq<u8> {
    lit("First configuration operation completed: ") + dec_digits(n) + lit(" bytes")
}

/// Status line of the second connectivity sink.
pub open spec fn spec_second_stream_status(n: nat) -> Seq<u8> {
    lit("Second configuration operation completed: ") + dec_digits(n) + lit(" bytes")
}

/// Status line of the third connectivity sink.
pub open spec fn spec_third_stream_status(n: nat) -> Seq<u8> {
    lit("Third configuration operation completed: ") + dec_digits(n) + lit(" bytes")
}

/// The summary a system-integration pipeline run returns.
pub open spec fn spec_handle_stream(s: Seq<u8>, ts: i64) -> Seq<u8> {
    lit("Integration operations completed: ") + spec_first_stream_status(
        spec_stream_final(s, ts).len(),
    ) + lit(", ") + spec_second_stream_status(spec_stream_final(s, ts).len()) + lit(", ")
        + spec_third_stream_status(spec_stream_final(s, ts).len())
}

proof fn stream_tags_ascii()
    ensures
        ascii_str("data"),
        ascii_str("PATTERN=DATA_PROCESSING -- PRIORITY=STREAM_OPERATION -- TYPE=CONTINUOUS_PROCESSING"),
        ascii_str("stream"),
        ascii_str("PATTERN=STREAM_PROCESSING -- PRIORITY=STREAM_OPERATION -- TYPE=CONTINUOUS_PROCESSING"),
        ascii_str("batch"),
        ascii_str("PATTERN=BATCH_PROCESSING -- PRIORITY=BATCH_OPERATION -- TYPE=BULK_PROCESSING"),
        ascii_str("real-time"),
        ascii_str("PATTERN=REALTIME_PROCESSING -- PRIORITY=REALTIME_OPERATION -- TYPE=IMMEDIATE_PROCESSING"),
        ascii_str("analytics"),
        ascii_str("PATTERN=ANALYTICS_PROCESSING -- PRIORITY=ANALYTICS_OPERATION -- TYPE=INSIGHT_PROCESSING"),
        ascii_str("machine-learning"),
        ascii_str("PATTERN=ML_PROCESSING -- PRIORITY=ML_OPERATION -- TYPE=LEARNING_PROCESSING"),
        ascii_str("ai"),
        ascii_str("PATTERN=AI_PROCESSING -- PRIORITY=AI_OPERATION -- TYPE=INTELLIGENT_PROCESSING"),
        ascii_str("neural"),
        ascii_str("PATTERN=NEURAL_PROCESSING -- PRIORITY=NEURAL_OPERATION -- TYPE=BRAIN_PROCESSING"),
        ascii_str("deep-learning"),
        ascii_str("PATTERN=DEEPLEARNING_PROCESSING -- PRIORITY=DEEPLEARNING_OPERATION -- TYPE=DEEP_PROCESSING"),
        ascii_str("predictive"),
        ascii_str("PATTERN=PREDICTIVE_PROCESSING -- PRIORITY=PREDICTIVE_OPERATION -- TYPE=FORECAST_PROCESSING"),
        ascii_str("statistical"),
        ascii_str("PATTERN=STATISTICAL_PROCESSING -- PRIORITY=STATISTICAL_OPERATION -- TYPE=MATH_PROCESSING"),
        ascii_str("clustering"),
        ascii_str("PATTERN=CLUSTERING_PROCESSING -- PRIORITY=CLUSTERING_OPERATION -- TYPE=GROUP_PROCESSING"),
        ascii_str("classification"),
        ascii_str("PATTERN=CLASSIFICATION_PROCESSING -- PRIORITY=CLASSIFICATION_OPERATION -- TYPE=CATEGORY_PROCESSING"),
        ascii_str("regression"),
        ascii_str("PATTERN=REGRESSION_PROCESSING -- PRIORITY=REGRESSION_OPERATION -- TYPE=TREND_PROCESSING"),
        ascii_str("optimization"),
        ascii_str("PATTERN=OPTIMIZATION_PROCESSING -- PRIORITY=OPTIMIZATION_OPERATION -- TYPE=IMPROVE_PROCESSING"),
        ascii_str("visualization"),
        ascii_str("PATTERN=VISUALIZATION_PROCESSING -- PRIORITY=VISUALIZATION_OPERATION -- TYPE=DISPLAY_PROCESSING"),
        ascii_str("reporting"),
        ascii_str("PATTERN=REPORTING_PROCESSING -- PRIORITY=REPORTING_OPERATION -- TYPE=SUMMARY_PROCESSING"),
        ascii_str("monitoring"),
        ascii_str("PATTERN=MONITORING_PROCESSING -- PRIORITY=MONITORING_OPERATION -- TYPE=WATCH_PROCESSING"),
        ascii_str("alerting"),
        ascii_str("PATTERN=ALERTING_PROCESSING -- PRIORITY=ALERTING_OPERATION -- TYPE=NOTIFY_PROCESSING"),
        ascii_str("logging"),
        ascii_str("PATTERN=LOGGING_PROCESSING -- PRIORITY=LOGGING_OPERATION -- TYPE=RECORD_PROCESSING"),
        ascii_str("PATTERN=GENERIC_PROCESSING -- PRIORITY=NORMAL -- TYPE=GENERAL"),
        ascii_str("high-availability"),
        ascii_str("HA"),
        ascii_str("scalable"),
        ascii_str("SCALABLE"),
        ascii_str("parallel"),
        ascii_str("PARALLEL"),
        ascii_str("STANDARD"),
        ascii_str("PARALLEL_FLAG"),
        ascii_str("distributed"),
        ascii_str("DISTRIBUTED_FLAG"),
        ascii_str("SCALABLE_FLAG"),
        ascii_str("fault-tolerant"),
        ascii_str("FAULT_TOLERANT_FLAG"),
        ascii_str("HIGH_AVAILABILITY_FLAG"),
        ascii_str("sensitive"),
        ascii_str("private"),
        ascii_str("SENSITIVE_DATA"),
        ascii_str("encrypted"),
        ascii_str("secure"),
        ascii_str("ENCRYPTED_PROCESSING"),
        ascii_str("compliance"),
        ascii_str("audit"),
        ascii_str("COMPLIANCE_MODE"),
        ascii_str("backup"),
        ascii_str("recovery"),
        ascii_str("BACKUP_MODE"),
        ascii_str(" -- "),
        ascii_str(" -- FORMAT="),
        ascii_str(" -- COMPLEXITY="),
        ascii_str(" -- FLAGS="),
        ascii_str(","),
        ascii_str(" -- LENGTH="),
        ascii_str("CONTEXT=DATA_PROCESSING"),
        ascii_str("CONTEXT=STREAM_PROCESSING"),
        ascii_str("CONTEXT=BATCH_PROCESSING"),
        ascii_str("CONTEXT=ANALYTICS_PROCESSING"),
        ascii_str("ml"),
        ascii_str("CONTEXT=ML_PROCESSING"),
        ascii_str("CONTEXT=AI_PROCESSING"),
        ascii_str("CONTEXT=NEURAL_PROCESSING"),
        ascii_str("deep"),
        ascii_str("CONTEXT=DEEP_PROCESSING"),
        ascii_str("CONTEXT=PREDICTIVE_PROCESSING"),
        ascii_str("CONTEXT=STATISTICAL_PROCESSING"),
        ascii_str("CONTEXT=CLUSTERING_PROCESSING"),
        ascii_str("CONTEXT=CLASSIFICATION_PROCESSING"),
        ascii_str("CONTEXT=REGRESSION_PROCESSING"),
        ascii_str("CONTEXT=OPTIMIZATION_PROCESSING"),
        ascii_str("CONTEXT=VISUALIZATION_PROCESSING"),
        ascii_str("CONTEXT=REPORTING_PROCESSING"),
        ascii_str("CONTEXT=GENERAL_PROCESSING"),
        ascii_str("SECURITY=SENSITIVE_DATA"),
        ascii_str("SECURITY=ENCRYPTED_DATA"),
        ascii_str("SECURITY=COMPLIANCE_DATA"),
        ascii_str("SECURITY=AUDIT_DATA"),
        ascii_str("SECURITY=STANDARD_DATA"),
        ascii_str("critical"),
        ascii_str("BUSINESS=CRITICAL_PROCESSING"),
        ascii_str("urgent"),
        ascii_str("BUSINESS=URGENT_PROCESSING"),
        ascii_str("normal"),
        ascii_str("BUSINESS=NORMAL_PROCESSING"),
        ascii_str("low"),
        ascii_str("BUSINESS=LOW_PRIORITY_PROCESSING"),
        ascii_str("BUSINESS=STANDARD_PROCESSING"),
        ascii_str(" -- PROCESSING=PROC_"),
        ascii_str(" -- VERSION=v2.1 -- HASH=DATA_"),
        ascii_str(" -- REQUEST=REQ_"),
        ascii_str(" -- CORRELATION=CORR_"),
        ascii_str(" -- SIZE="),
        ascii_str(" -- TIME="),
        ascii_str(" -- MEMORY="),
        ascii_str(" -- CPU="),
        ascii_str(" -- CONTEXT="),
        ascii_str(" -- SECURITY="),
        ascii_str(" -- BUSINESS="),
        ascii_str(" -- DURATION="),
        ascii_str(" -- COUNT="),
        ascii_str(" -- LATENCY="),
        ascii_str(" -- LOAD="),
        ascii_str(" -- CACHE="),
        ascii_str("//data"),
        ascii_str(" -- PROCESSING_TYPE=DATA_STREAM -- PROCESSING_VERSION=2.1 -- STREAM_SUPPORT=ENABLED -- REAL_TIME_SUPPORT=ENABLED"),
        ascii_str("//analytics"),
        ascii_str(" -- PROCESSING_TYPE=ANALYTICS_STREAM -- PROCESSING_VERSION=2.1 -- INSIGHT_GENERATION=ENABLED -- PATTERN_RECOGNITION=ENABLED"),
        ascii_str("//ml"),
        ascii_str(" -- PROCESSING_TYPE=ML_STREAM -- PROCESSING_VERSION=2.1 -- LEARNING_ENABLED=ENABLED -- MODEL_TRAINING=ENABLED"),
        ascii_str("//ai"),
        ascii_str(" -- PROCESSING_TYPE=AI_STREAM -- PROCESSING_VERSION=2.1 -- INTELLIGENCE_ENABLED=ENABLED -- DECISION_MAKING=ENABLED"),
        ascii_str(" -- PARALLEL_OPTIMIZATION=ENABLED -- THREAD_COUNT=8 -- CONCURRENT_PROCESSING=ENABLED"),
        ascii_str(" -- DISTRIBUTED_OPTIMIZATION=ENABLED -- NODE_COUNT=16 -- CLUSTER_PROCESSING=ENABLED"),
        ascii_str(" -- SCALABLE_OPTIMIZATION=ENABLED -- AUTO_SCALING=ENABLED -- LOAD_BALANCING=ENABLED"),
        ascii_str(" -- FAULT_TOLERANT_OPTIMIZATION=ENABLED -- REDUNDANCY=ENABLED -- FAILOVER=ENABLED"),
        ascii_str(" -- HIGH_AVAILABILITY_OPTIMIZATION=ENABLED -- UPTIME=99.99 -- MONITORING=ENABLED"),
        ascii_str("-- SAFETY_CHECK"),
        ascii_str("-- PROCESSING_VALIDATION=ENABLED"),
        ascii_str(" -- PROCESSING_VALIDATION=SKIPPED"),
        ascii_str("injection"),
        ascii_str(" -- THREAT_DETECTED=INJECTION_ATTEMPT -- MITIGATION=ENABLED -- SANITIZATION=ENABLED"),
        ascii_str("overflow"),
        ascii_str(" -- THREAT_DETECTED=OVERFLOW_ATTEMPT -- MITIGATION=ENABLED -- BOUNDS_CHECKING=ENABLED"),
        ascii_str("race"),
        ascii_str(" -- THREAT_DETECTED=RACE_CONDITION -- MITIGATION=ENABLED -- SYNCHRONIZATION=ENABLED"),
        ascii_str("First configuration operation completed: "),
        ascii_str(" bytes"),
        ascii_str("Second configuration operation completed: "),
        ascii_str("Third configuration operation completed: "),
        ascii_str("Integration operations completed: "),
        ascii_str(", "),
{
    reveal_strlit("data");
    reveal_strlit("PATTERN=DATA_PROCESSING -- PRIORITY=STREAM_OPERATION -- TYPE=CONTINUOUS_PROCESSING");
    reveal_strlit("stream");
    reveal_strlit("PATTERN=STREAM_PROCESSING -- PRIORITY=STREAM_OPERATION -- TYPE=CONTINUOUS_PROCESSING");
    reveal_strlit("batch");
    reveal_strlit("PATTERN=BATCH_PROCESSING -- PRIORITY=BATCH_OPERATION -- TYPE=BULK_PROCESSING");
    reveal_strlit("real-time");
    reveal_strlit("PATTERN=REALTIME_PROCESSING -- PRIORITY=REALTIME_OPERATION -- TYPE=IMMEDIATE_PROCESSING");
    reveal_strlit("analytics");
    reveal_strlit("PATTERN=ANALYTICS_PROCESSING -- PRIORITY=ANALYTICS_OPERATION -- TYPE=INSIGHT_PROCESSING");
    reveal_strlit("machine-learning");
    reveal_strlit("PATTERN=ML_PROCESSING -- PRIORITY=ML_OPERATION -- TYPE=LEARNING_PROCESSING");
    reveal_strlit("ai");
    reveal_strlit("PATTERN=AI_PROCESSING -- PRIORITY=AI_OPERATION -- TYPE=INTELLIGENT_PROCESSING");
    reveal_strlit("neural");
    reveal_strlit("PATTERN=NEURAL_PROCESSING -- PRIORITY=NEURAL_OPERATION -- TYPE=BRAIN_PROCESSING");
    reveal_strlit("deep-learning");
    reveal_strlit("PATTERN=DEEPLEARNING_PROCESSING -- PRIORITY=DEEPLEARNING_OPERATION -- TYPE=DEEP_PROCESSING");
    reveal_strlit("predictive");
    reveal_strlit("PATTERN=PREDICTIVE_PROCESSING -- PRIORITY=PREDICTIVE_OPERATION -- TYPE=FORECAST_PROCESSING");
    reveal_strlit("statistical");
    reveal_strlit("PATTERN=STATISTICAL_PROCESSING -- PRIORITY=STATISTICAL_OPERATION -- TYPE=MATH_PROCESSING");
    reveal_strlit("clustering");
    reveal_strlit("PATTERN=CLUSTERING_PROCESSING -- PRIORITY=CLUSTERING_OPERATION -- TYPE=GROUP_PROCESSING");
    reveal_strlit("classification");
    reveal_strlit("PATTERN=CLASSIFICATION_PROCESSING -- PRIORITY=CLASSIFICATION_OPERATION -- TYPE=CATEGORY_PROCESSING");
    reveal_strlit("regression");
    reveal_strlit("PATTERN=REGRESSION_PROCESSING -- PRIORITY=REGRESSION_OPERATION -- TYPE=TREND_PROCESSING");
    reveal_strlit("optimization");
    reveal_strlit("PATTERN=OPTIMIZATION_PROCESSING -- PRIORITY=OPTIMIZATION_OPERATION -- TYPE=IMPROVE_PROCESSING");
    reveal_strlit("visualization");
    reveal_strlit("PATTERN=VISUALIZATION_PROCESSING -- PRIORITY=VISUALIZATION_OPERATION -- TYPE=DISPLAY_PROCESSING");
    reveal_strlit("reporting");
    reveal_strlit("PATTERN=REPORTING_PROCESSING -- PRIORITY=REPORTING_OPERATION -- TYPE=SUMMARY_PROCESSING");
    reveal_strlit("monitoring");
    reveal_strlit("PATTERN=MONITORING_PROCESSING -- PRIORITY=MONITORING_OPERATION -- TYPE=WATCH_PROCESSING");
    reveal_strlit("alerting");
    reveal_strlit("PATTERN=ALERTING_PROCESSING -- PRIORITY=ALERTING_OPERATION -- TYPE=NOTIFY_PROCESSING");
    reveal_strlit("logging");
    reveal_strlit("PATTERN=LOGGING_PROCESSING -- PRIORITY=LOGGING_OPERATION -- TYPE=RECORD_PROCESSING");
    reveal_strlit("PATTERN=GENERIC_PROCESSING -- PRIORITY=NORMAL -- TYPE=GENERAL");
    reveal_strlit("high-availability");
    reveal_strlit("HA");
    reveal_strlit("scalable");
    reveal_strlit("SCALABLE");
    reveal_strlit("parallel");
    reveal_strlit("PARALLEL");
    reveal_strlit("STANDARD");
    reveal_strlit("PARALLEL_FLAG");
    reveal_strlit("distributed");
    reveal_strlit("DISTRIBUTED_FLAG");
    reveal_strlit("SCALABLE_FLAG");
    reveal_strlit("fault-tolerant");
    reveal_strlit("FAULT_TOLERANT_FLAG");
    reveal_strlit("HIGH_AVAILABILITY_FLAG");
    reveal_strlit("sensitive");
    reveal_strlit("private");
    reveal_strlit("SENSITIVE_DATA");
    reveal_strlit("encrypted");
    reveal_strlit("secure");
    reveal_strlit("ENCRYPTED_PROCESSING");
    reveal_strlit("compliance");
    reveal_strlit("audit");
    reveal_strlit("COMPLIANCE_MODE");
    reveal_strlit("backup");
    reveal_strlit("recovery");
    reveal_strlit("BACKUP_MODE");
    reveal_strlit(" -- ");
    reveal_strlit(" -- FORMAT=");
    reveal_strlit(" -- COMPLEXITY=");
    reveal_strlit(" -- FLAGS=");
    reveal_strlit(",");
    reveal_strlit(" -- LENGTH=");
    reveal_strlit("CONTEXT=DATA_PROCESSING");
    reveal_strlit("CONTEXT=STREAM_PROCESSING");
    reveal_strlit("CONTEXT=BATCH_PROCESSING");
    reveal_strlit("CONTEXT=ANALYTICS_PROCESSING");
    reveal_strlit("ml");
    reveal_strlit("CONTEXT=ML_PROCESSING");
    reveal_strlit("CONTEXT=AI_PROCESSING");
    reveal_strlit("CONTEXT=NEURAL_PROCESSING");
    reveal_strlit("deep");
    reveal_strlit("CONTEXT=DEEP_PROCESSING");
    reveal_strlit("CONTEXT=PREDICTIVE_PROCESSING");
    reveal_strlit("CONTEXT=STATISTICAL_PROCESSING");
    reveal_strlit("CONTEXT=CLUSTERING_PROCESSING");
    reveal_strlit("CONTEXT=CLASSIFICATION_PROCESSING");
    reveal_strlit("CONTEXT=REGRESSION_PROCESSING");
    reveal_strlit("CONTEXT=OPTIMIZATION_PROCESSING");
    reveal_strlit("CONTEXT=VISUALIZATION_PROCESSING");
    reveal_strlit("CONTEXT=REPORTING_PROCESSING");
    reveal_strlit("CONTEXT=GENERAL_PROCESSING");
    reveal_strlit("SECURITY=SENSITIVE_DATA");
    reveal_strlit("SECURITY=ENCRYPTED_DATA");
    reveal_strlit("SECURITY=COMPLIANCE_DATA");
    reveal_strlit("SECURITY=AUDIT_DATA");
    reveal_strlit("SECURITY=STANDARD_DATA");
    reveal_strlit("critical");
    reveal_strlit("BUSINESS=CRITICAL_PROCESSING");
    reveal_strlit("urgent");
    reveal_strlit("BUSINESS=URGENT_PROCESSING");
    reveal_strlit("normal");
    reveal_strlit("BUSINESS=NORMAL_PROCESSING");
    reveal_strlit("low");
    reveal_strlit("BUSINESS=LOW_PRIORITY_PROCESSING");
    reveal_strlit("BUSINESS=STANDARD_PROCESSING");
    reveal_strlit(" -- PROCESSING=PROC_");
    reveal_strlit(" -- VERSION=v2.1 -- HASH=DATA_");
    reveal_strlit(" -- REQUEST=REQ_");
    reveal_strlit(" -- CORRELATION=CORR_");
    reveal_strlit(" -- SIZE=");
    reveal_strlit(" -- TIME=");
    reveal_strlit(" -- MEMORY=");
    reveal_strlit(" -- CPU=");
    reveal_strlit(" -- CONTEXT=");
    reveal_strlit(" -- SECURITY=");
    reveal_strlit(" -- BUSINESS=");
    reveal_strlit(" -- DURATION=");
    reveal_strlit(" -- COUNT=");
    reveal_strlit(" -- LATENCY=");
    reveal_strlit(" -- LOAD=");
    reveal_strlit(" -- CACHE=");
    reveal_strlit("//data");
    reveal_strlit(" -- PROCESSING_TYPE=DATA_STREAM -- PROCESSING_VERSION=2.1 -- STREAM_SUPPORT=ENABLED -- REAL_TIME_SUPPORT=ENABLED");
    reveal_strlit("//analytics");
    reveal_strlit(" -- PROCESSING_TYPE=ANALYTICS_STREAM -- PROCESSING_VERSION=2.1 -- INSIGHT_GENERATION=ENABLED -- PATTERN_RECOGNITION=ENABLED");
    reveal_strlit("//ml");
    reveal_strlit(" -- PROCESSING_TYPE=ML_STREAM -- PROCESSING_VERSION=2.1 -- LEARNING_ENABLED=ENABLED -- MODEL_TRAINING=ENABLED");
    reveal_strlit("//ai");
    reveal_strlit(" -- PROCESSING_TYPE=AI_STREAM -- PROCESSING_VERSION=2.1 -- INTELLIGENCE_ENABLED=ENABLED -- DECISION_MAKING=ENABLED");
    reveal_strlit(" -- PARALLEL_OPTIMIZATION=ENABLED -- THREAD_COUNT=8 -- CONCURRENT_PROCESSING=ENABLED");
    reveal_strlit(" -- DISTRIBUTED_OPTIMIZATION=ENABLED -- NODE_COUNT=16 -- CLUSTER_PROCESSING=ENABLED");
    reveal_strlit(" -- SCALABLE_OPTIMIZATION=ENABLED -- AUTO_SCALING=ENABLED -- LOAD_BALANCING=ENABLED");
    reveal_strlit(" -- FAULT_TOLERANT_OPTIMIZATION=ENABLED -- REDUNDANCY=ENABLED -- FAILOVER=ENABLED");
    reveal_strlit(" -- HIGH_AVAILABILITY_OPTIMIZATION=ENABLED -- UPTIME=99.99 -- MONITORING=ENABLED");
    reveal_strlit("-- SAFETY_CHECK");
    reveal_strlit("-- PROCESSING_VALIDATION=ENABLED");
    reveal_strlit(" -- PROCESSING_VALIDATION=SKIPPED");
    reveal_strlit("injection");
    reveal_strlit(" -- THREAT_DETECTED=INJECTION_ATTEMPT -- MITIGATION=ENABLED -- SANITIZATION=ENABLED");
    reveal_strlit("overflow");
    reveal_strlit(" -- THREAT_DETECTED=OVERFLOW_ATTEMPT -- MITIGATION=ENABLED -- BOUNDS_CHECKING=ENABLED");
    reveal_strlit("race");
    reveal_strlit(" -- THREAT_DETECTED=RACE_CONDITION -- MITIGATION=ENABLED -- SYNCHRONIZATION=ENABLED");
    reveal_strlit("First configuration operation completed: ");
    reveal_strlit(" bytes");
    reveal_strlit("Second configuration operation completed: ");
    reveal_strlit("Third configuration operation completed: ");
    reveal_strlit("Integration operations completed: ");
    reveal_strlit(", ");
}

/// Append the classification tag chosen from the lowercase data.
fn push_stream_class_tag(out: &mut Vec<u8>, base_low: &[u8])
    ensures
        final(out)@ == old(out)@ + stream_class_tag(base_low@),
{
    proof {
        stream_tags_ascii();
    }
    if contains_lit(base_low, "data") {
        push_lit(out, "PATTERN=DATA_PROCESSING -- PRIORITY=STREAM_OPERATION -- TYPE=CONTINUOUS_PROCESSING");
    } else if contains_lit(base_low, "stream") {
        push_lit(out, "PATTERN=STREAM_PROCESSING -- PRIORITY=STREAM_OPERATION -- TYPE=CONTINUOUS_PROCESSING");
    } else if contains_lit(base_low, "batch") {
        push_lit(out, "PATTERN=BATCH_PROCESSING -- PRIORITY=BATCH_OPERATION -- TYPE=BULK_PROCESSING");
    } else if contains_lit(base_low, "real-time") {
        push_lit(out, "PATTERN=REALTIME_PROCESSING -- PRIORITY=REALTIME_OPERATION -- TYPE=IMMEDIATE_PROCESSING");
    } else if contains_lit(base_low, "analytics") {
        push_lit(out, "PATTERN=ANALYTICS_PROCESSING -- PRIORITY=ANALYTICS_OPERATION -- TYPE=INSIGHT_PROCESSING");
    } else if contains_lit(base_low, "machine-learning") {
        push_lit(out, "PATTERN=ML_PROCESSING -- PRIORITY=ML_OPERATION -- TYPE=LEARNING_PROCESSING");
    } else if contains_lit(base_low, "ai") {
        push_lit(out, "PATTERN=AI_PROCESSING -- PRIORITY=AI_OPERATION -- TYPE=INTELLIGENT_PROCESSING");
    } else if contains_lit(base_low, "neural") {
        push_lit(out, "PATTERN=NEURAL_PROCESSING -- PRIORITY=NEURAL_OPERATION -- TYPE=BRAIN_PROCESSING");
    } else if contains_lit(base_low, "deep-learning") {
        push_lit(out, "PATTERN=DEEPLEARNING_PROCESSING -- PRIORITY=DEEPLEARNING_OPERATION -- TYPE=DEEP_PROCESSING");
    } else if contains_lit(base_low, "predictive") {
        push_lit(out, "PATTERN=PREDICTIVE_PROCESSING -- PRIORITY=PREDICTIVE_OPERATION -- TYPE=FORECAST_PROCESSING");
    } else if contains_lit(base_low, "statistical") {
        push_lit(out, "PATTERN=STATISTICAL_PROCESSING -- PRIORITY=STATISTICAL_OPERATION -- TYPE=MATH_PROCESSING");
    } else if contains_lit(base_low, "clustering") {
        push_lit(out, "PATTERN=CLUSTERING_PROCESSING -- PRIORITY=CLUSTERING_OPERATION -- TYPE=GROUP_PROCESSING");
    } else if contains_lit(base_low, "classification") {
        push_lit(out, "PATTERN=CLASSIFICATION_PROCESSING -- PRIORITY=CLASSIFICATION_OPERATION -- TYPE=CATEGORY_PROCESSING");
    } else if contains_lit(base_low, "regression") {
        push_lit(out, "PATTERN=REGRESSION_PROCESSING -- PRIORITY=REGRESSION_OPERATION -- TYPE=TREND_PROCESSING");
    } else if contains_lit(base_low, "optimization") {
        push_lit(out, "PATTERN=OPTIMIZATION_PROCESSING -- PRIORITY=OPTIMIZATION_OPERATION -- TYPE=IMPROVE_PROCESSING");
    } else if contains_lit(base_low, "visualization") {
        push_lit(out, "PATTERN=VISUALIZATION_PROCESSING -- PRIORITY=VISUALIZATION_OPERATION -- TYPE=DISPLAY_PROCESSING");
    } else if contains_lit(base_low, "reporting") {
        push_lit(out, "PATTERN=REPORTING_PROCESSING -- PRIORITY=REPORTING_OPERATION -- TYPE=SUMMARY_PROCESSING");
    } else if contains_lit(base_low, "monitoring") {
        push_lit(out, "PATTERN=MONITORING_PROCESSING -- PRIORITY=MONITORING_OPERATION -- TYPE=WATCH_PROCESSING");
    } else if contains_lit(base_low, "alerting") {
        push_lit(out, "PATTERN=ALERTING_PROCESSING -- PRIORITY=ALERTING_OPERATION -- TYPE=NOTIFY_PROCESSING");
    } else if contains_lit(base_low, "logging") {
        push_lit(out, "PATTERN=LOGGING_PROCESSING -- PRIORITY=LOGGING_OPERATION -- TYPE=RECORD_PROCESSING");
    } else {
        push_lit(out, "PATTERN=GENERIC_PROCESSING -- PRIORITY=NORMAL -- TYPE=GENERAL");
    }
}

/// Append the format tag chosen by the parameters.
fn push_stream_format(out: &mut Vec<u8>, params: &[u8])
    ensures
        final(out)@ == old(out)@ + lit(" -- FORMAT=") + stream_format(params@),
{
    proof {
        stream_tags_ascii();
    }
    push_lit(out, " -- FORMAT=");
    if has_param_exec(params, "high-availability") {
        push_lit(out, "HA");
    } else if has_param_exec(params, "scalable") {
        push_lit(out, "SCALABLE");
    } else if has_param_exec(params, "parallel") {
        push_lit(out, "PARALLEL");
    } else {
        push_lit(out, "STANDARD");
    }
}

/// Collect the parameter-derived processing flags in order.
fn stream_param_flags_vec(params: &[u8]) -> (flags: Vec<Vec<u8>>)
    ensures
        flags@.map_values(|v: Vec<u8>| v@) == stream_param_flags(params@),
{
    proof {
        stream_tags_ascii();
    }
    let mut flags: Vec<Vec<u8>> = Vec::new();
    if has_param_exec(params, "parallel") {
        flags.push(lit_vec("PARALLEL_FLAG"));
    }
    if has_param_exec(params, "distributed") {
        flags.push(lit_vec("DISTRIBUTED_FLAG"));
    }
    if has_param_exec(params, "scalable") {
        flags.push(lit_vec("SCALABLE_FLAG"));
    }
    if has_param_exec(params, "fault-tolerant") {
        flags.push(lit_vec("FAULT_TOLERANT_FLAG"));
    }
    if has_param_exec(params, "high-availability") {
        flags.push(lit_vec("HIGH_AVAILABILITY_FLAG"));
    }
    proof {
        assert(flags@.map_values(|v: Vec<u8>| v@) =~= stream_param_flags(params@));
    }
    flags
}

/// Collect the data-derived processing flags in order.
fn stream_data_flags_vec(base_low: &[u8]) -> (flags: Vec<Vec<u8>>)
    ensures
        flags@.map_values(|v: Vec<u8>| v@) == stream_data_flags(base_low@),
{
    proof {
        stream_tags_ascii();
    }
    let mut flags: Vec<Vec<u8>> = Vec::new();
    if contains_lit(base_low, "sensitive") || contains_lit(base_low, "private") {
        flags.push(lit_vec("SENSITIVE_DATA"));
    }
    if contains_lit(base_low, "encrypted") || contains_lit(base_low, "secure") {
        flags.push(lit_vec("ENCRYPTED_PROCESSING"));
    }
    if contains_lit(base_low, "compliance") || contains_lit(base_low, "audit") {
        flags.push(lit_vec("COMPLIANCE_MODE"));
    }
    if contains_lit(base_low, "backup") || contains_lit(base_low, "recovery") {
        flags.push(lit_vec("BACKUP_MODE"));
    }
    proof {
        assert(flags@.map_values(|v: Vec<u8>| v@) =~= stream_data_flags(base_low@));
    }
    flags
}

/// Collect the processing flags in order.
fn stream_flags_vec(base_low: &[u8], params: &[u8]) -> (flags: Vec<Vec<u8>>)
    ensures
        flags@.map_values(|v: Vec<u8>| v@) == stream_flags(base_low@, params@),
{
    let mut flags = stream_param_flags_vec(params);
    let mut rest = stream_data_flags_vec(base_low);
    let ghost pf = flags@;
    let ghost df = rest@;
    flags.append(&mut rest);
    proof {
        assert(flags@.map_values(|v: Vec<u8>| v@) =~= pf.map_values(|v: Vec<u8>| v@)
            + df.map_values(|v: Vec<u8>| v@));
    }
    flags
}

/// Process incoming data stream and apply transformations./// Process incoming data stream and apply transformations.
#[verifier::rlimit(100)]
#[verifier::spinoff_prover]
pub fn process_data_stream(integration_data: Vec<u8>) -> (out: Vec<u8>)
    ensures
        out@ == spec_parse_stream(integration_data@),
{
    proof {
        stream_tags_ascii();
    }
    let ghost s = integration_data@;
    let n = integration_data.len();
    let pieces = split_bytes(integration_data.as_slice(), 124);
    proof {
        lemma_split_len(s, 124);
        assert(pieces@.map_values(|v: Vec<u8>| v@).len() == pieces@.len());
        assert(pieces@[0]@ == stream_base(s));
    }
    let base_low = to_lower_bytes(pieces[0].as_slice());
    let params: Vec<u8> = if pieces.len() >= 2 {
        let pv = vstd::slice::slice_to_vec(pieces[1].as_slice());
        proof {
            assert(pieces@[1]@ == stream_params(s));
        }
        pv
    } else {
        let pv: Vec<u8> = Vec::new();
        proof {
            assert(pv@ =~= stream_params(s));
        }
        pv
    };
    let ghost low = lower_seq(stream_base(s));
    let ghost p = stream_params(s);
    proof {
        assert(base_low@ == low);
        assert(params@ == p);
    }
    let mut out = integration_data;
    push_lit(&mut out, " -- ");
    push_stream_class_tag(&mut out, base_low.as_slice());
    proof {
        assert(out@ == s + lit(" -- ") + stream_class_tag(low));
    }
    push_stream_format(&mut out, params.as_slice());
    push_lit(&mut out, " -- COMPLEXITY=");
    let depth = count_byte_exec(pieces[0].as_slice(), 47);
    let keys = param_keys_exec(params.as_slice());
    let total: u128 = depth as u128 + keys.len() as u128;
    proof {
        assert(keys@.map_values(|v: Vec<u8>| v@).len() == keys@.len());
        assert(total as nat == stream_complexity(s));
    }
    let mut cx = render_u128(total);
    out.append(&mut cx);
    push_lit(&mut out, " -- FLAGS=");
    let flags = stream_flags_vec(base_low.as_slice(), params.as_slice());

    proof {
        assert(out@ =~= s + lit(" -- ") + stream_class_tag(low) + lit(" -- FORMAT=")
            + stream_format(p) + lit(" -- COMPLEXITY=") + dec_digits(stream_complexity(s))
            + lit(" -- FLAGS="));
    }
    let comma = lit_vec(",");
    let mut joined = join_bytes(&flags, comma.as_slice());
    out.append(&mut joined);
    push_lit(&mut out, " -- LENGTH=");
    let mut num = render_usize(n);
    out.append(&mut num);
    proof {
        assert(out@ =~= spec_parse_stream(s));
    }
    out
}

/// One clock-derived remainder.
fn stream_tsmod_exec(ts: i64, m: u64) -> (r: u64)
    requires
        m > 0,
    ensures
        r as nat == stream_tsmod(ts, m as int),
{
    if ts >= 0 {
        (ts as u64) % m
    } else {
        0
    }
}

/// Enhance data processing with processing metadata for a clock
/// reading.
#[verifier::rlimit(100)]
pub fn enhance_data_processing(processed_data: Vec<u8>, timestamp: i64) -> (out: Vec<u8>)
    ensures
        out@ == spec_enrich_stream(processed_data@, timestamp),
{
    proof {
        stream_tags_ascii();
    }
    let ghost d = processed_data@;
    let size = processed_data.len();
    let ctx_data = contains_lit(processed_data.as_slice(), "data");
    let ctx_stream = contains_lit(processed_data.as_slice(), "stream");
    let ctx_batch = contains_lit(processed_data.as_slice(), "batch");
    let ctx_analytics = contains_lit(processed_data.as_slice(), "analytics");
    let ctx_ml = contains_lit(processed_data.as_slice(), "ml");
    let ctx_ai = contains_lit(processed_data.as_slice(), "ai");
    let ctx_neural = contains_lit(processed_data.as_slice(), "neural");
    let ctx_deep = contains_lit(processed_data.as_slice(), "deep");
    let ctx_predictive = contains_lit(processed_data.as_slice(), "predictive");
    let ctx_statistical = contains_lit(processed_data.as_slice(), "statistical");
    let ctx_clustering = contains_lit(processed_data.as_slice(), "clustering");
    let ctx_classification = contains_lit(processed_data.as_slice(), "classification");
    let ctx_regression = contains_lit(processed_data.as_slice(), "regression");
    let ctx_optimization = contains_lit(processed_data.as_slice(), "optimization");
    let ctx_visualization = contains_lit(processed_data.as_slice(), "visualization");
    let ctx_reporting = contains_lit(processed_data.as_slice(), "reporting");
    let sec_sensitive = contains_lit(processed_data.as_slice(), "sensitive");
    let sec_encrypted = contains_lit(processed_data.as_slice(), "encrypted");
    let sec_compliance = contains_lit(processed_data.as_slice(), "compliance");
    let sec_audit = contains_lit(processed_data.as_slice(), "audit");
    let biz_critical = contains_lit(processed_data.as_slice(), "critical");
    let biz_urgent = contains_lit(processed_data.as_slice(), "urgent");
    let biz_normal = contains_lit(processed_data.as_slice(), "normal");
    let biz_low = contains_lit(processed_data.as_slice(), "low");
    let mut out = processed_data;
    push_lit(&mut out, " -- PROCESSING=PROC_");
    let mut t1 = render_u64(stream_tsmod_exec(timestamp, 10000));
    out.append(&mut t1);
    push_lit(&mut out, " -- VERSION=v2.1 -- HASH=DATA_");
    let mut t2 = render_hex_u64(stream_tsmod_exec(timestamp, 0xFFFF));
    out.append(&mut t2);
    push_lit(&mut out, " -- REQUEST=REQ_");
    let mut t3 = render_hex_u64(stream_tsmod_exec(timestamp, 0xFFFFFF));
    out.append(&mut t3);
    push_lit(&mut out, " -- CORRELATION=CORR_");
    let mut t4 = render_hex_u64(stream_tsmod_exec(timestamp, 0xFFFFFFFF));
    out.append(&mut t4);
    push_lit(&mut out, " -- SIZE=");
    let mut t5 = render_usize(size);
    out.append(&mut t5);
    push_lit(&mut out, " -- TIME=");
    let mut t6 = render_u64(stream_tsmod_exec(timestamp, 1000));
    out.append(&mut t6);
    push_lit(&mut out, " -- MEMORY=");
    let memv: u128 = (size as u128 * 3) % 0x1_0000_0000;
    proof {
        assert(memv as nat == stream_mem32(d.len()));
    }
    let mut t7 = render_u128(memv);
    out.append(&mut t7);
    push_lit(&mut out, " -- CPU=");
    let mut t8 = render_u64(stream_tsmod_exec(timestamp, 100));
    out.append(&mut t8);
    push_lit(&mut out, " -- CONTEXT=");
    if ctx_data {
        push_lit(&mut out, "CONTEXT=DATA_PROCESSING");
    } else if ctx_stream {
        push_lit(&mut out, "CONTEXT=STREAM_PROCESSING");
    } else if ctx_batch {
        push_lit(&mut out, "CONTEXT=BATCH_PROCESSING");
    } else if ctx_analytics {
        push_lit(&mut out, "CONTEXT=ANALYTICS_PROCESSING");
    } else if ctx_ml {
        push_lit(&mut out, "CONTEXT=ML_PROCESSING");
    } else if ctx_ai {
        push_lit(&mut out, "CONTEXT=AI_PROCESSING");
    } else if ctx_neural {
        push_lit(&mut out, "CONTEXT=NEURAL_PROCESSING");
    } else if ctx_deep {
        push_lit(&mut out, "CONTEXT=DEEP_PROCESSING");
    } else if ctx_predictive {
        push_lit(&mut out, "CONTEXT=PREDICTIVE_PROCESSING");
    } else if ctx_statistical {
        push_lit(&mut out, "CONTEXT=STATISTICAL_PROCESSING");
    } else if ctx_clustering {
        push_lit(&mut out, "CONTEXT=CLUSTERING_PROCESSING");
    } else if ctx_classification {
        push_lit(&mut out, "CONTEXT=CLASSIFICATION_PROCESSING");
    } else if ctx_regression {
        push_lit(&mut out, "CONTEXT=REGRESSION_PROCESSING");
    } else if ctx_optimization {
        push_lit(&mut out, "CONTEXT=OPTIMIZATION_PROCESSING");
    } else if ctx_visualization {
        push_lit(&mut out, "CONTEXT=VISUALIZATION_PROCESSING");
    } else if ctx_reporting {
        push_lit(&mut out, "CONTEXT=REPORTING_PROCESSING");
    } else {
        push_lit(&mut out, "CONTEXT=GENERAL_PROCESSING");
    }
    push_lit(&mut out, " -- SECURITY=");
    if sec_sensitive {
        push_lit(&mut out, "SECURITY=SENSITIVE_DATA");
    } else if sec_encrypted {
        push_lit(&mut out, "SECURITY=ENCRYPTED_DATA");
    } else if sec_compliance {
        push_lit(&mut out, "SECURITY=COMPLIANCE_DATA");
    } else if sec_audit {
        push_lit(&mut out, "SECURITY=AUDIT_DATA");
    } else {
        push_lit(&mut out, "SECURITY=STANDARD_DATA");
    }
    push_lit(&mut out, " -- BUSINESS=");
    if biz_critical {
        push_lit(&mut out, "BUSINESS=CRITICAL_PROCESSING");
    } else if biz_urgent {
        push_lit(&mut out, "BUSINESS=URGENT_PROCESSING");
    } else if biz_normal {
        push_lit(&mut out, "BUSINESS=NORMAL_PROCESSING");
    } else if biz_low {
        push_lit(&mut out, "BUSINESS=LOW_PRIORITY_PROCESSING");
    } else {
        push_lit(&mut out, "BUSINESS=STANDARD_PROCESSING");
    }
    push_lit(&mut out, " -- DURATION=");
    let mut t9 = render_u64(stream_tsmod_exec(timestamp, 3600));
    out.append(&mut t9);
    push_lit(&mut out, " -- COUNT=");
    let mut t10 = render_u64(stream_tsmod_exec(timestamp, 100) + 1);
    out.append(&mut t10);
    push_lit(&mut out, " -- LATENCY=");
    let mut t11 = render_u64(stream_tsmod_exec(timestamp, 500));
    out.append(&mut t11);
    push_lit(&mut out, " -- LOAD=");
    let mut t12 = render_u64(stream_tsmod_exec(timestamp, 100));
    out.append(&mut t12);
    push_lit(&mut out, " -- CACHE=");
    let mut t13 = render_u64(stream_tsmod_exec(timestamp, 100));
    out.append(&mut t13);
    proof {
        assert(out@ =~= spec_enrich_stream(d, timestamp));
    }
    out
}

/// Optimize data flow with final tagging and the validation rewrite.
#[verifier::rlimit(100)]
pub fn optimize_data_flow(enriched_data: Vec<u8>) -> (out: Vec<u8>)
    ensures
        out@ == spec_prepare_stream(enriched_data@),
{
    proof {
        stream_tags_ascii();
        reveal_strlit("-- SAFETY_CHECK");
    }
    let ghost e = enriched_data@;
    let mut out = enriched_data;
    let low1 = to_lower_bytes(out.as_slice());
    if contains_lit(low1.as_slice(), "//data") {
        push_lit(&mut out, " -- PROCESSING_TYPE=DATA_STREAM -- PROCESSING_VERSION=2.1 -- STREAM_SUPPORT=ENABLED -- REAL_TIME_SUPPORT=ENABLED");
    }
    let low2 = to_lower_bytes(out.as_slice());
    if contains_lit(low2.as_slice(), "//analytics") {
        push_lit(&mut out, " -- PROCESSING_TYPE=ANALYTICS_STREAM -- PROCESSING_VERSION=2.1 -- INSIGHT_GENERATION=ENABLED -- PATTERN_RECOGNITION=ENABLED");
    }
    let low3 = to_lower_bytes(out.as_slice());
    if contains_lit(low3.as_slice(), "//ml") {
        push_lit(&mut out, " -- PROCESSING_TYPE=ML_STREAM -- PROCESSING_VERSION=2.1 -- LEARNING_ENABLED=ENABLED -- MODEL_TRAINING=ENABLED");
    }
    let low4 = to_lower_bytes(out.as_slice());
    if contains_lit(low4.as_slice(), "//ai") {
        push_lit(&mut out, " -- PROCESSING_TYPE=AI_STREAM -- PROCESSING_VERSION=2.1 -- INTELLIGENCE_ENABLED=ENABLED -- DECISION_MAKING=ENABLED");
    }
    let low5 = to_lower_bytes(out.as_slice());
    if contains_lit(low5.as_slice(), "parallel") {
        push_lit(&mut out, " -- PARALLEL_OPTIMIZATION=ENABLED -- THREAD_COUNT=8 -- CONCURRENT_PROCESSING=ENABLED");
    }
    let low6 = to_lower_bytes(out.as_slice());
    if contains_lit(low6.as_slice(), "distributed") {
        push_lit(&mut out, " -- DISTRIBUTED_OPTIMIZATION=ENABLED -- NODE_COUNT=16 -- CLUSTER_PROCESSING=ENABLED");
    }
    let low7 = to_lower_bytes(out.as_slice());
    if contains_lit(low7.as_slice(), "scalable") {
        push_lit(&mut out, " -- SCALABLE_OPTIMIZATION=ENABLED -- AUTO_SCALING=ENABLED -- LOAD_BALANCING=ENABLED");
    }
    let low8 = to_lower_bytes(out.as_slice());
    if contains_lit(low8.as_slice(), "fault-tolerant") {
        push_lit(&mut out, " -- FAULT_TOLERANT_OPTIMIZATION=ENABLED -- REDUNDANCY=ENABLED -- FAILOVER=ENABLED");
    }
    let low9 = to_lower_bytes(out.as_slice());
    if contains_lit(low9.as_slice(), "high-availability") {
        push_lit(&mut out, " -- HIGH_AVAILABILITY_OPTIMIZATION=ENABLED -- UPTIME=99.99 -- MONITORING=ENABLED");
    }
    proof {
        assert(out@ == stream_env_steps(e));
    }
    let mut out = if contains_lit(out.as_slice(), "-- SAFETY_CHECK") {
        let pat = lit_vec("-- SAFETY_CHECK");
        let rep = lit_vec("-- PROCESSING_VALIDATION=ENABLED");
        replace_bytes(out.as_slice(), pat.as_slice(), rep.as_slice())
    } else {
        let mut kept = out;
        push_lit(&mut kept, " -- PROCESSING_VALIDATION=SKIPPED");
        kept
    };
    proof {
        assert(out@ == stream_validation_step(stream_env_steps(e)));
    }
    let tlow1 = to_lower_bytes(out.as_slice());
    if contains_lit(tlow1.as_slice(), "injection") {
        push_lit(&mut out, " -- THREAT_DETECTED=INJECTION_ATTEMPT -- MITIGATION=ENABLED -- SANITIZATION=ENABLED");
    }
    let tlow2 = to_lower_bytes(out.as_slice());
    if contains_lit(tlow2.as_slice(), "overflow") {
        push_lit(&mut out, " -- THREAT_DETECTED=OVERFLOW_ATTEMPT -- MITIGATION=ENABLED -- BOUNDS_CHECKING=ENABLED");
    }
    let tlow3 = to_lower_bytes(out.as_slice());
    if contains_lit(tlow3.as_slice(), "race") {
        push_lit(&mut out, " -- THREAT_DETECTED=RACE_CONDITION -- MITIGATION=ENABLED -- SYNCHRONIZATION=ENABLED");
    }
    proof {
        assert(out@ =~= spec_prepare_stream(e));
    }
    out
}

/// First connectivity sink's status line; the raw parser
/// initialization itself is foreign-function work and lives with the
/// caller.
pub fn execute_primary_connectivity(data: &[u8]) -> (st: Vec<u8>)
    ensures
        st@ == spec_first_stream_status(data@.len()),
{
    proof {
        stream_tags_ascii();
    }
    let mut st: Vec<u8> = Vec::new();
    push_lit(&mut st, "First configuration operation completed: ");
    let mut num = render_usize(data.len());
    st.append(&mut num);
    push_lit(&mut st, " bytes");
    proof {
        assert(st@ =~= spec_first_stream_status(data@.len()));
    }
    st
}

/// Second connectivity sink's status line; the field-offset probe
/// itself is foreign-function work and lives with the caller.
pub fn execute_secondary_connectivity(data: &[u8]) -> (st: Vec<u8>)
    ensures
        st@ == spec_second_stream_status(data@.len()),
{
    proof {
        stream_tags_ascii();
    }
    let mut st: Vec<u8> = Vec::new();
    push_lit(&mut st, "Second configuration operation completed: ");
    let mut num = render_usize(data.len());
    st.append(&mut num);
    push_lit(&mut st, " bytes");
    proof {
        assert(st@ =~= spec_second_stream_status(data@.len()));
    }
    st
}

/// Third connectivity sink's status line; the raw string takeover
/// itself is foreign-function work and lives with the caller.
pub fn execute_tertiary_connectivity(data: &[u8]) -> (st: Vec<u8>)
    ensures
        st@ == spec_third_stream_status(data@.len()),
{
    proof {
        stream_tags_ascii();
    }
    let mut st: Vec<u8> = Vec::new();
    push_lit(&mut st, "Third configuration operation completed: ");
    let mut num = render_usize(data.len());
    st.append(&mut num);
    push_lit(&mut st, " bytes");
    proof {
        assert(st@ =~= spec_third_stream_status(data@.len()));
    }
    st
}

/// Run the whole system-integration pipeline for one given clock
/// reading.
pub fn handle_system_integration_operations_at(integration_data: Vec<u8>, timestamp: i64) -> (r:
    Result<Vec<u8>, Vec<u8>>)
    ensures
        r is Ok,
        r->Ok_0@ == spec_handle_stream(integration_data@, timestamp),
{
    proof {
        stream_tags_ascii();
    }
    let ghost s = integration_data@;
    let parsed = process_data_stream(integration_data);
    let enriched = enhance_data_processing(parsed, timestamp);
    let final_data = optimize_data_flow(enriched);
    let first = execute_primary_connectivity(final_data.as_slice());
    let second = execute_secondary_connectivity(final_data.as_slice());
    let third = execute_tertiary_connectivity(final_data.as_slice());
    let mut out: Vec<u8> = Vec::new();
    push_lit(&mut out, "Integration operations completed: ");
    out.extend_from_slice(first.as_slice());
    push_lit(&mut out, ", ");
    out.extend_from_slice(second.as_slice());
    push_lit(&mut out, ", ");
    out.extend_from_slice(third.as_slice());
    proof {
        assert(out@ =~= spec_handle_stream(s, timestamp));
    }
    Ok(out)
}

/// System-integration processing entry point: reads the clock, then
/// runs the pipeline; the summary always reports all three sink
/// statuses.
pub fn handle_system_integration_operations(integration_data: Vec<u8>) -> (r: Result<
    Vec<u8>,
    Vec<u8>,
>)
    ensures
        r is Ok,
        exists|ts: i64| r->Ok_0@ == #[trigger] spec_handle_stream(integration_data@, ts),
{
    let ts = clock::unix_timestamp_now();
    handle_system_integration_operations_at(integration_data, ts)
}

proof fn lemma_stream_parse_prefix(s: Seq<u8>)
    ensures
        spec_parse_stream(s).len() >= s.len() + 2,
        spec_parse_stream(s).take(s.len() as int) == s,
        spec_parse_stream(s)[s.len() as int] == 32,
        spec_parse_stream(s)[s.len() as int + 1] == 45,
{
    reveal_strlit(" -- ");
    let n = s.len() as int;
    let low = lower_seq(stream_base(s));
    let p = stream_params(s);
    assert(lit(" -- ").len() == 4 && lit(" -- ")[0] == 32 && lit(" -- ")[1] == 45);
    let q1 = s + lit(" -- ");
    assert(q1.take(n) =~= s);
    assert(q1[n] == 32 && q1[n + 1] == 45);
    let q2 = q1 + stream_class_tag(low);
    lemma_append_keeps_tagged_prefix(q1, s, stream_class_tag(low));
    let q3 = q2 + lit(" -- FORMAT=");
    lemma_append_keeps_tagged_prefix(q2, s, lit(" -- FORMAT="));
    let q4 = q3 + stream_format(p);
    lemma_append_keeps_tagged_prefix(q3, s, stream_format(p));
    let q5 = q4 + lit(" -- COMPLEXITY=");
    lemma_append_keeps_tagged_prefix(q4, s, lit(" -- COMPLEXITY="));
    let q6 = q5 + dec_digits(stream_complexity(s));
    lemma_append_keeps_tagged_prefix(q5, s, dec_digits(stream_complexity(s)));
    let q7 = q6 + lit(" -- FLAGS=");
    lemma_append_keeps_tagged_prefix(q6, s, lit(" -- FLAGS="));
    let q8 = q7 + join_with(stream_flags(low, p), lit(","));
    lemma_append_keeps_tagged_prefix(q7, s, join_with(stream_flags(low, p), lit(",")));
    let q9 = q8 + lit(" -- LENGTH=");
    lemma_append_keeps_tagged_prefix(q8, s, lit(" -- LENGTH="));
    let q10 = q9 + dec_digits(s.len());
    lemma_append_keeps_tagged_prefix(q9, s, dec_digits(s.len()));
    assert(spec_parse_stream(s) == q10);
}

proof fn lemma_stream_enrich_prefix(d: Seq<u8>, s: Seq<u8>, ts: i64)
    requires
        d.len() >= s.len() + 2,
        d.take(s.len() as int) == s,
        d[s.len() as int] == 32,
        d[s.len() as int + 1] == 45,
    ensures
        spec_enrich_stream(d, ts).len() >= s.len() + 2,
        spec_enrich_stream(d, ts).take(s.len() as int) == s,
        spec_enrich_stream(d, ts)[s.len() as int] == 32,
        spec_enrich_stream(d, ts)[s.len() as int + 1] == 45,
{
    let r0 = d;
    let r1 = r0 + lit(" -- PROCESSING=PROC_");
    lemma_append_keeps_tagged_prefix(r0, s, lit(" -- PROCESSING=PROC_"));
    let r2 = r1 + dec_digits(stream_tsmod(ts, 10000));
    lemma_append_keeps_tagged_prefix(r1, s, dec_digits(stream_tsmod(ts, 10000)));
    let r3 = r2 + lit(" -- VERSION=v2.1 -- HASH=DATA_");
    lemma_append_keeps_tagged_prefix(r2, s, lit(" -- VERSION=v2.1 -- HASH=DATA_"));
    let r4 = r3 + hex_digits(stream_tsmod(ts, 0xFFFF));
    lemma_append_keeps_tagged_prefix(r3, s, hex_digits(stream_tsmod(ts, 0xFFFF)));
    let r5 = r4 + lit(" -- REQUEST=REQ_");
    lemma_append_keeps_tagged_prefix(r4, s, lit(" -- REQUEST=REQ_"));
    let r6 = r5 + hex_digits(stream_tsmod(ts, 0xFFFFFF));
    lemma_append_keeps_tagged_prefix(r5, s, hex_digits(stream_tsmod(ts, 0xFFFFFF)));
    let r7 = r6 + lit(" -- CORRELATION=CORR_");
    lemma_append_keeps_tagged_prefix(r6, s, lit(" -- CORRELATION=CORR_"));
    let r8 = r7 + hex_digits(stream_tsmod(ts, 0xFFFFFFFF));
    lemma_append_keeps_tagged_prefix(r7, s, hex_digits(stream_tsmod(ts, 0xFFFFFFFF)));
    let r9 = r8 + lit(" -- SIZE=");
    lemma_append_keeps_tagged_prefix(r8, s, lit(" -- SIZE="));
    let r10 = r9 + dec_digits(d.len());
    lemma_append_keeps_tagged_prefix(r9, s, dec_digits(d.len()));
    let r11 = r10 + lit(" -- TIME=");
    lemma_append_keeps_tagged_prefix(r10, s, lit(" -- TIME="));
    let r12 = r11 + dec_digits(stream_tsmod(ts, 1000));
    lemma_append_keeps_tagged_prefix(r11, s, dec_digits(stream_tsmod(ts, 1000)));
    let r13 = r12 + lit(" -- MEMORY=");
    lemma_append_keeps_tagged_prefix(r12, s, lit(" -- MEMORY="));
    let r14 = r13 + dec_digits(stream_mem32(d.len()));
    lemma_append_keeps_tagged_prefix(r13, s, dec_digits(stream_mem32(d.len())));
    let r15 = r14 + lit(" -- CPU=");
    lemma_append_keeps_tagged_prefix(r14, s, lit(" -- CPU="));
    let r16 = r15 + dec_digits(stream_tsmod(ts, 100));
    lemma_append_keeps_tagged_prefix(r15, s, dec_digits(stream_tsmod(ts, 100)));
    let r17 = r16 + lit(" -- CONTEXT=");
    lemma_append_keeps_tagged_prefix(r16, s, lit(" -- CONTEXT="));
    let r18 = r17 + stream_context_tag(d);
    lemma_append_keeps_tagged_prefix(r17, s, stream_context_tag(d));
    let r19 = r18 + lit(" -- SECURITY=");
    lemma_append_keeps_tagged_prefix(r18, s, lit(" -- SECURITY="));
    let r20 = r19 + stream_security_tag(d);
    lemma_append_keeps_tagged_prefix(r19, s, stream_security_tag(d));
    let r21 = r20 + lit(" -- BUSINESS=");
    lemma_append_keeps_tagged_prefix(r20, s, lit(" -- BUSINESS="));
    let r22 = r21 + stream_business_tag(d);
    lemma_append_keeps_tagged_prefix(r21, s, stream_business_tag(d));
    let r23 = r22 + lit(" -- DURATION=");
    lemma_append_keeps_tagged_prefix(r22, s, lit(" -- DURATION="));
    let r24 = r23 + dec_digits(stream_tsmod(ts, 3600));
    lemma_append_keeps_tagged_prefix(r23, s, dec_digits(stream_tsmod(ts, 3600)));
    let r25 = r24 + lit(" -- COUNT=");
    lemma_append_keeps_tagged_prefix(r24, s, lit(" -- COUNT="));
    let r26 = r25 + dec_digits(stream_tsmod(ts, 100) + 1);
    lemma_append_keeps_tagged_prefix(r25, s, dec_digits(stream_tsmod(ts, 100) + 1));
    let r27 = r26 + lit(" -- LATENCY=");
    lemma_append_keeps_tagged_prefix(r26, s, lit(" -- LATENCY="));
    let r28 = r27 + dec_digits(stream_tsmod(ts, 500));
    lemma_append_keeps_tagged_prefix(r27, s, dec_digits(stream_tsmod(ts, 500)));
    let r29 = r28 + lit(" -- LOAD=");
    lemma_append_keeps_tagged_prefix(r28, s, lit(" -- LOAD="));
    let r30 = r29 + dec_digits(stream_tsmod(ts, 100));
    lemma_append_keeps_tagged_prefix(r29, s, dec_digits(stream_tsmod(ts, 100)));
    let r31 = r30 + lit(" -- CACHE=");
    lemma_append_keeps_tagged_prefix(r30, s, lit(" -- CACHE="));
    let r32 = r31 + dec_digits(stream_tsmod(ts, 100));
    lemma_append_keeps_tagged_prefix(r31, s, dec_digits(stream_tsmod(ts, 100)));
    assert(spec_enrich_stream(d, ts) == r32);
}

proof fn lemma_stream_env_prefix(c: Seq<u8>, s: Seq<u8>)
    requires
        c.len() >= s.len() + 2,
        c.take(s.len() as int) == s,
        c[s.len() as int] == 32,
        c[s.len() as int + 1] == 45,
    ensures
        stream_env_steps(c).len() >= s.len() + 2,
        stream_env_steps(c).take(s.len() as int) == s,
        stream_env_steps(c)[s.len() as int] == 32,
        stream_env_steps(c)[s.len() as int + 1] == 45,
{
    let a0 = c;
    let a1 = if contains_seq(lower_seq(a0), lit("//data")) {
        a0 + lit(" -- PROCESSING_TYPE=DATA_STREAM -- PROCESSING_VERSION=2.1 -- STREAM_SUPPORT=ENABLED -- REAL_TIME_SUPPORT=ENABLED")
    } else {
        a0
    };
    if contains_seq(lower_seq(a0), lit("//data")) {
        lemma_append_keeps_tagged_prefix(a0, s, lit(" -- PROCESSING_TYPE=DATA_STREAM -- PROCESSING_VERSION=2.1 -- STREAM_SUPPORT=ENABLED -- REAL_TIME_SUPPORT=ENABLED"));
    }
    let a2 = if contains_seq(lower_seq(a1), lit("//analytics")) {
        a1 + lit(" -- PROCESSING_TYPE=ANALYTICS_STREAM -- PROCESSING_VERSION=2.1 -- INSIGHT_GENERATION=ENABLED -- PATTERN_RECOGNITION=ENABLED")
    } else {
        a1
    };
    if contains_seq(lower_seq(a1), lit("//analytics")) {
        lemma_append_keeps_tagged_prefix(a1, s, lit(" -- PROCESSING_TYPE=ANALYTICS_STREAM -- PROCESSING_VERSION=2.1 -- INSIGHT_GENERATION=ENABLED -- PATTERN_RECOGNITION=ENABLED"));
    }
    let a3 = if contains_seq(lower_seq(a2), lit("//ml")) {
        a2 + lit(" -- PROCESSING_TYPE=ML_STREAM -- PROCESSING_VERSION=2.1 -- LEARNING_ENABLED=ENABLED -- MODEL_TRAINING=ENABLED")
    } else {
        a2
    };
    if contains_seq(lower_seq(a2), lit("//ml")) {
        lemma_append_keeps_tagged_prefix(a2, s, lit(" -- PROCESSING_TYPE=ML_STREAM -- PROCESSING_VERSION=2.1 -- LEARNING_ENABLED=ENABLED -- MODEL_TRAINING=ENABLED"));
    }
    let a4 = if contains_seq(lower_seq(a3), lit("//ai")) {
        a3 + lit(" -- PROCESSING_TYPE=AI_STREAM -- PROCESSING_VERSION=2.1 -- INTELLIGENCE_ENABLED=ENABLED -- DECISION_MAKING=ENABLED")
    } else {
        a3
    };
    if contains_seq(lower_seq(a3), lit("//ai")) {
        lemma_append_keeps_tagged_prefix(a3, s, lit(" -- PROCESSING_TYPE=AI_STREAM -- PROCESSING_VERSION=2.1 -- INTELLIGENCE_ENABLED=ENABLED -- DECISION_MAKING=ENABLED"));
    }
    let a5 = if contains_seq(lower_seq(a4), lit("parallel")) {
        a4 + lit(" -- PARALLEL_OPTIMIZATION=ENABLED -- THREAD_COUNT=8 -- CONCURRENT_PROCESSING=ENABLED")
    } else {
        a4
    };
    if contains_seq(lower_seq(a4), lit("parallel")) {
        lemma_append_keeps_tagged_prefix(a4, s, lit(" -- PARALLEL_OPTIMIZATION=ENABLED -- THREAD_COUNT=8 -- CONCURRENT_PROCESSING=ENABLED"));
    }
    let a6 = if contains_seq(lower_seq(a5), lit("distributed")) {
        a5 + lit(" -- DISTRIBUTED_OPTIMIZATION=ENABLED -- NODE_COUNT=16 -- CLUSTER_PROCESSING=ENABLED")
    } else {
        a5
    };
    if contains_seq(lower_seq(a5), lit("distributed")) {
        lemma_append_keeps_tagged_prefix(a5, s, lit(" -- DISTRIBUTED_OPTIMIZATION=ENABLED -- NODE_COUNT=16 -- CLUSTER_PROCESSING=ENABLED"));
    }
    let a7 = if contains_seq(lower_seq(a6), lit("scalable")) {
        a6 + lit(" -- SCALABLE_OPTIMIZATION=ENABLED -- AUTO_SCALING=ENABLED -- LOAD_BALANCING=ENABLED")
    } else {
        a6
    };
    if contains_seq(lower_seq(a6), lit("scalable")) {
        lemma_append_keeps_tagged_prefix(a6, s, lit(" -- SCALABLE_OPTIMIZATION=ENABLED -- AUTO_SCALING=ENABLED -- LOAD_BALANCING=ENABLED"));
    }
    let a8 = if contains_seq(lower_seq(a7), lit("fault-tolerant")) {
        a7 + lit(" -- FAULT_TOLERANT_OPTIMIZATION=ENABLED -- REDUNDANCY=ENABLED -- FAILOVER=ENABLED")
    } else {
        a7
    };
    if contains_seq(lower_seq(a7), lit("fault-tolerant")) {
        lemma_append_keeps_tagged_prefix(a7, s, lit(" -- FAULT_TOLERANT_OPTIMIZATION=ENABLED -- REDUNDANCY=ENABLED -- FAILOVER=ENABLED"));
    }
    let a9 = if contains_seq(lower_seq(a8), lit("high-availability")) {
        a8 + lit(" -- HIGH_AVAILABILITY_OPTIMIZATION=ENABLED -- UPTIME=99.99 -- MONITORING=ENABLED")
    } else {
        a8
    };
    if contains_seq(lower_seq(a8), lit("high-availability")) {
        lemma_append_keeps_tagged_prefix(a8, s, lit(" -- HIGH_AVAILABILITY_OPTIMIZATION=ENABLED -- UPTIME=99.99 -- MONITORING=ENABLED"));
    }
    assert(stream_env_steps(c) == a9);
}

proof fn lemma_stream_validation_prefix(x: Seq<u8>, s: Seq<u8>)
    requires
        x.len() >= s.len() + 2,
        x.take(s.len() as int) == s,
        x[s.len() as int] == 32,
        x[s.len() as int + 1] == 45,
        !contains_seq(s, lit("-- SAFETY_CHECK")),
    ensures
        stream_validation_step(x).len() >= s.len(),
        stream_validation_step(x).take(s.len() as int) == s,
{
    reveal_strlit("-- SAFETY_CHECK");
    let pat = lit("-- SAFETY_CHECK");
    assert(pat.len() == 15);
    if contains_seq(x, pat) {
        assert forall|k: int|
            1 <= k < pat.len() implies #[trigger] pat[k] != 32 || (k + 1 < pat.len()
            && pat[k + 1] != 45) by {
            assert(pat[2] == 32 && pat[3] == 83);
        }
        crate::text::lemma_replace_keeps_tagged_prefix(
            x,
            s,
            pat,
            lit("-- PROCESSING_VALIDATION=ENABLED"),
        );
    } else {
        lemma_append_keeps_take(x, s, lit(" -- PROCESSING_VALIDATION=SKIPPED"));
    }
}

proof fn lemma_stream_threat_prefix(x: Seq<u8>, s: Seq<u8>)
    requires
        x.len() >= s.len(),
        x.take(s.len() as int) == s,
    ensures
        stream_threat_steps(x).len() >= s.len(),
        stream_threat_steps(x).take(s.len() as int) == s,
{
    let a0 = x;
    let a1 = if contains_seq(lower_seq(a0), lit("injection")) {
        a0 + lit(" -- THREAT_DETECTED=INJECTION_ATTEMPT -- MITIGATION=ENABLED -- SANITIZATION=ENABLED")
    } else {
        a0
    };
    if contains_seq(lower_seq(a0), lit("injection")) {
        lemma_append_keeps_take(a0, s, lit(" -- THREAT_DETECTED=INJECTION_ATTEMPT -- MITIGATION=ENABLED -- SANITIZATION=ENABLED"));
    }
    let a2 = if contains_seq(lower_seq(a1), lit("overflow")) {
        a1 + lit(" -- THREAT_DETECTED=OVERFLOW_ATTEMPT -- MITIGATION=ENABLED -- BOUNDS_CHECKING=ENABLED")
    } else {
        a1
    };
    if contains_seq(lower_seq(a1), lit("overflow")) {
        lemma_append_keeps_take(a1, s, lit(" -- THREAT_DETECTED=OVERFLOW_ATTEMPT -- MITIGATION=ENABLED -- BOUNDS_CHECKING=ENABLED"));
    }
    let a3 = if contains_seq(lower_seq(a2), lit("race")) {
        a2 + lit(" -- THREAT_DETECTED=RACE_CONDITION -- MITIGATION=ENABLED -- SYNCHRONIZATION=ENABLED")
    } else {
        a2
    };
    if contains_seq(lower_seq(a2), lit("race")) {
        lemma_append_keeps_take(a2, s, lit(" -- THREAT_DETECTED=RACE_CONDITION -- MITIGATION=ENABLED -- SYNCHRONIZATION=ENABLED"));
    }
    assert(stream_threat_steps(x) == a3);
}

/// Taint preservation: a payload free of the safety-check marker that
/// the finalize stage rewrites survives as a contiguous substring of
/// the final pipeline output.
pub proof fn lemma_stream_taint_preserved(s: Seq<u8>, ts: i64)
    requires
        !contains_seq(s, lit("-- SAFETY_CHECK")),
    ensures
        contains_seq(spec_stream_final(s, ts), s),
{
    lemma_stream_parse_prefix(s);
    lemma_stream_enrich_prefix(spec_parse_stream(s), s, ts);
    let e = spec_enrich_stream(spec_parse_stream(s), ts);
    lemma_stream_env_prefix(e, s);
    lemma_stream_validation_prefix(stream_env_steps(e), s);
    lemma_stream_threat_prefix(stream_validation_step(stream_env_steps(e)), s);
    lemma_prefix_contains(spec_stream_final(s, ts), s);
}

/// The summary embeds, in each sink status, the byte length of the
/// finalized pipeline output.
pub proof fn lemma_stream_status_reports_final_length(s: Seq<u8>, ts: i64)
    ensures
        spec_handle_stream(s, ts) == lit("Integration operations completed: ") + (lit(
            "First configuration operation completed: ",
        ) + dec_digits(spec_stream_final(s, ts).len()) + lit(" bytes")) + lit(", ") + (lit(
            "Second configuration operation completed: ",
        ) + dec_digits(spec_stream_final(s, ts).len()) + lit(" bytes")) + lit(", ") + (lit(
            "Third configuration operation completed: ",
        ) + dec_digits(spec_stream_final(s, ts).len()) + lit(" bytes")),
{
}

} // verus!
