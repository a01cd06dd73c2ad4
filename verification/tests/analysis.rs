use fraudswarm::{
    AgentDetails, AgentError, AgentScore, AnomalyHistory, Decision, FraudAnalyzer,
    GeographicHistory, Location, MerchantHistory, MerchantInfo, NetworkHistory, PatternHistory,
    RecentLocation, RecentTransaction, SimilarTxn, Timestamp, Transaction, UserBaseline,
};

fn finding(risk_score: u32, reason: &str) -> AgentScore {
    AgentScore {
        risk_score,
        reason: reason.to_string(),
        details: AgentDetails::Network {
            fraud_ring_detected: false,
            users_sharing_device: 0,
            coordinated_transactions: 0,
        },
    }
}

fn usual_txn() -> Transaction {
    Transaction {
        transaction_id: "9b2f6c1e-0000-4000-8000-000000000001".to_string(),
        user_id: "user_normal_123".to_string(),
        amount: 8_550,
        merchant: "Walmart Superstore".to_string(),
        merchant_category: "groceries".to_string(),
        location: Location {
            city: "Austin".to_string(),
            country: "US".to_string(),
            lat: 30_267_200,
            lon: -97_743_100,
        },
        timestamp: Timestamp { secs: 1_700_000_000, nanos: 0 },
        payment_method: "credit_card".to_string(),
        device_fingerprint: "fp_1".to_string(),
    }
}

fn usual_pattern() -> PatternHistory {
    PatternHistory {
        baseline: UserBaseline {
            average_amount: 9_000,
            common_categories: vec!["groceries".to_string(), "gas".to_string()],
        },
        similar: vec![SimilarTxn { fraud_label: Some(false) }; 10],
    }
}

fn usual_anomaly() -> AnomalyHistory {
    AnomalyHistory {
        recent: vec![
            RecentTransaction { amount: 8_000, age_micros: 7_200_000_000 },
            RecentTransaction { amount: 10_000, age_micros: 36_000_000_000 },
        ],
    }
}

fn usual_geographic() -> GeographicHistory {
    GeographicHistory {
        recent: vec![RecentLocation {
            city: "Austin".to_string(),
            country: "US".to_string(),
            lat: 30_267_200,
            lon: -97_743_100,
            age_micros: 7_200_000_000,
        }],
        distance_from_last: 0,
    }
}

fn usual_merchant() -> MerchantHistory {
    MerchantHistory {
        info: Some(MerchantInfo {
            merchant_name: "Walmart Superstore".to_string(),
            fraud_rate: 30_000,
            total_transactions: 5_000,
        }),
        fraud_patterns: 0,
        similar_risky_merchants: 0,
    }
}

fn usual_network() -> NetworkHistory {
    NetworkHistory { users_sharing_device: 0, coordinated_transactions: 1, velocity_ring: 1 }
}

fn store_failure(message: &str) -> AgentError {
    AgentError::Store(message.to_string())
}

#[test]
fn the_weighted_score_is_exact() {
    assert_eq!(FraudAnalyzer::weighted_score(0, 0, 0, 0, 0), 0);
    assert_eq!(
        FraudAnalyzer::weighted_score(
            1_000_000_000,
            1_000_000_000,
            1_000_000_000,
            1_000_000_000,
            1_000_000_000
        ),
        100_000_000_000
    );
    assert_eq!(FraudAnalyzer::weighted_score(1_000_000_000, 0, 0, 0, 0), 25_000_000_000);
    assert_eq!(FraudAnalyzer::weighted_score(0, 1_000_000_000, 0, 0, 0), 20_000_000_000);
    assert_eq!(FraudAnalyzer::weighted_score(0, 0, 1_000_000_000, 0, 0), 15_000_000_000);
    assert_eq!(FraudAnalyzer::weighted_score(0, 0, 0, 1_000_000_000, 0), 25_000_000_000);
    assert_eq!(FraudAnalyzer::weighted_score(0, 0, 0, 0, 1_000_000_000), 15_000_000_000);
    assert_eq!(
        FraudAnalyzer::weighted_score(
            300_000_000,
            450_000_000,
            200_000_000,
            700_000_000,
            400_000_000
        ),
        43_000_000_000
    );
    assert_eq!(
        FraudAnalyzer::weighted_score(u32::MAX, u32::MAX, u32::MAX, u32::MAX, u32::MAX),
        100 * (u32::MAX as u64)
    );
}

#[test]
fn the_weighted_score_agrees_with_the_real_formula() {
    let quintuples: [[u32; 5]; 4] = [
        [166_666_666, 150_000_000, 1_000_000_000, 550_000_000, 0],
        [1, 2, 3, 4, 5],
        [999_999_999, 0, 500_000_000, 123_456_789, 654_321_987],
        [700_000_000, 700_000_000, 700_000_000, 700_000_000, 700_000_000],
    ];
    for q in quintuples {
        let score = FraudAnalyzer::weighted_score(q[0], q[1], q[2], q[3], q[4]) as f64 / 1e11;
        let unit = |v: u32| v as f64 / 1e9;
        let expected = 0.25 * unit(q[0])
            + 0.20 * unit(q[1])
            + 0.15 * unit(q[2])
            + 0.25 * unit(q[3])
            + 0.15 * unit(q[4]);
        assert!((score - expected).abs() < 1e-9);
    }
}

#[test]
fn decision_boundaries_are_strict() {
    assert_eq!(FraudAnalyzer::decide(70_000_000_000, false), (Decision::Challenge, 750_000_000));
    assert_eq!(FraudAnalyzer::decide(70_000_100_000, false), (Decision::Block, 900_000_000));
    assert_eq!(FraudAnalyzer::decide(70_000_001_000, false), (Decision::Block, 900_000_000));
    assert_eq!(FraudAnalyzer::decide(40_000_000_000, false), (Decision::Approve, 850_000_000));
    assert_eq!(FraudAnalyzer::decide(40_000_100_000, false), (Decision::Challenge, 750_000_000));
    assert_eq!(FraudAnalyzer::decide(40_000_001_000, false), (Decision::Challenge, 750_000_000));
    assert_eq!(FraudAnalyzer::decide(0, false), (Decision::Approve, 850_000_000));
    assert_eq!(FraudAnalyzer::decide(100_000_000_000, false), (Decision::Block, 900_000_000));
}

#[test]
fn a_fraud_ring_blocks_whatever_the_score() {
    assert_eq!(FraudAnalyzer::decide(0, true), (Decision::Block, 950_000_000));
    assert_eq!(FraudAnalyzer::decide(40_000_001_000, true), (Decision::Block, 950_000_000));
    assert_eq!(FraudAnalyzer::decide(100_000_000_000, true), (Decision::Block, 950_000_000));
}

#[test]
fn the_ring_is_read_from_the_reason() {
    assert!(FraudAnalyzer::ring_reported(
        "\u{26a0}\u{fe0f} FRAUD RING DETECTED: Device shared by 4 users (fraud ring)"
    ));
    assert!(FraudAnalyzer::ring_reported("FRAUD RING DETECTED"));
    assert!(!FraudAnalyzer::ring_reported("No fraud ring indicators"));
    assert!(!FraudAnalyzer::ring_reported("Device used by 3 users"));
    assert!(!FraudAnalyzer::ring_reported(""));
}

#[test]
fn aggregation_weighs_decides_and_explains() {
    let result = FraudAnalyzer::new().aggregate(
        &finding(300_000_000, "p"),
        &finding(450_000_000, "a"),
        &finding(200_000_000, "g"),
        &finding(700_000_000, "m"),
        &finding(400_000_000, "n"),
        17,
    );
    assert_eq!(result.decision, Decision::Challenge);
    assert_eq!(result.confidence, 750_000_000);
    assert_eq!(result.latency_ms, 17);
    assert_eq!(result.agent_scores.pattern, 300_000_000);
    assert_eq!(result.agent_scores.anomaly, 450_000_000);
    assert_eq!(result.agent_scores.geographic, 200_000_000);
    assert_eq!(result.agent_scores.merchant, 700_000_000);
    assert!(!result.fraud_ring_detected);
    assert_eq!(
        result.reasoning,
        "Pattern: p | Anomaly: a | Geographic: g | Merchant: m | Network: n"
    );
}

#[test]
fn aggregation_at_the_block_boundary() {
    let analyzer = FraudAnalyzer::new();
    let at = analyzer.aggregate(
        &finding(700_000_000, ""),
        &finding(700_000_000, ""),
        &finding(700_000_000, ""),
        &finding(700_000_000, ""),
        &finding(700_000_000, ""),
        0,
    );
    assert_eq!(at.decision, Decision::Challenge);
    let above = analyzer.aggregate(
        &finding(700_004_000, ""),
        &finding(700_000_000, ""),
        &finding(700_000_000, ""),
        &finding(700_000_000, ""),
        &finding(700_000_000, ""),
        0,
    );
    assert_eq!(above.decision, Decision::Block);
    assert_eq!(above.confidence, 900_000_000);
}

#[test]
fn a_ring_overrides_four_clean_scores() {
    let ring = fraudswarm::NetworkAgent::new().analyze(&NetworkHistory {
        users_sharing_device: 4,
        coordinated_transactions: 0,
        velocity_ring: 0,
    });
    let result = FraudAnalyzer::new().aggregate(
        &finding(0, "Normal spending pattern"),
        &finding(0, "Normal transaction timing and frequency"),
        &finding(0, "Normal location: Austin, US"),
        &finding(0, "Trusted merchant: Walmart Superstore"),
        &ring,
        3,
    );
    assert_eq!(result.decision, Decision::Block);
    assert_eq!(result.confidence, 950_000_000);
    assert!(result.fraud_ring_detected);
    assert_eq!(result.agent_scores.pattern, 0);
    assert_eq!(result.agent_scores.merchant, 0);
}

#[test]
fn a_usual_transaction_is_approved() {
    let result = FraudAnalyzer::new()
        .analyze_transaction_at(
            &usual_txn(),
            Ok(usual_pattern()),
            Ok(usual_anomaly()),
            Ok(usual_geographic()),
            Ok(usual_merchant()),
            Ok(usual_network()),
            14,
            42,
        )
        .unwrap();
    assert_eq!(result.decision, Decision::Approve);
    assert_eq!(result.decision.as_str(), "APPROVE");
    assert_eq!(result.confidence, 850_000_000);
    assert_eq!(result.latency_ms, 42);
    assert_eq!(result.agent_scores.pattern, 0);
    assert_eq!(result.agent_scores.anomaly, 0);
    assert_eq!(result.agent_scores.geographic, 0);
    assert_eq!(result.agent_scores.merchant, 0);
    assert!(!result.fraud_ring_detected);
    assert_eq!(
        result.reasoning,
        "Pattern: Normal spending pattern | Anomaly: Normal transaction timing and frequency | \
         Geographic: Normal location: Austin, US | Merchant: Trusted merchant: Walmart Superstore \
         | Network: No fraud ring indicators"
    );
}

#[test]
fn a_risky_transaction_is_blocked_by_its_score() {
    let mut txn = usual_txn();
    txn.amount = 250_000;
    txn.merchant = "ScamElectronics Inc".to_string();
    txn.merchant_category = "electronics".to_string();
    txn.location.country = "XX".to_string();
    let pattern = PatternHistory {
        baseline: usual_pattern().baseline,
        similar: vec![SimilarTxn { fraud_label: Some(true) }; 10],
    };
    let anomaly = AnomalyHistory {
        recent: vec![RecentTransaction { amount: 8_000, age_micros: 60_000_000 }; 5],
    };
    let geographic = GeographicHistory {
        recent: usual_geographic().recent,
        distance_from_last: 2_000_000,
    };
    let merchant = MerchantHistory {
        info: Some(MerchantInfo {
            merchant_name: "ScamElectronics Inc".to_string(),
            fraud_rate: 450_000,
            total_transactions: 4,
        }),
        fraud_patterns: 2,
        similar_risky_merchants: 1,
    };
    let network =
        NetworkHistory { users_sharing_device: 3, coordinated_transactions: 0, velocity_ring: 0 };
    let result = FraudAnalyzer::new()
        .analyze_transaction_at(
            &txn,
            Ok(pattern),
            Ok(anomaly),
            Ok(geographic),
            Ok(merchant),
            Ok(network),
            3,
            9,
        )
        .unwrap();
    // pattern 1.0, anomaly 1.0, geographic 0.9, merchant 1.0, network 0.2
    assert_eq!(result.agent_scores.pattern, 1_000_000_000);
    assert_eq!(result.agent_scores.anomaly, 1_000_000_000);
    assert_eq!(result.agent_scores.geographic, 900_000_000);
    assert_eq!(result.agent_scores.merchant, 1_000_000_000);
    assert_eq!(result.decision, Decision::Block);
    assert_eq!(result.confidence, 900_000_000);
    assert!(!result.fraud_ring_detected);
}

#[test]
fn a_ring_in_the_history_blocks_a_usual_transaction() {
    let network =
        NetworkHistory { users_sharing_device: 0, coordinated_transactions: 0, velocity_ring: 11 };
    let result = FraudAnalyzer::new()
        .analyze_transaction_at(
            &usual_txn(),
            Ok(usual_pattern()),
            Ok(usual_anomaly()),
            Ok(usual_geographic()),
            Ok(usual_merchant()),
            Ok(network),
            14,
            1,
        )
        .unwrap();
    assert_eq!(result.decision, Decision::Block);
    assert_eq!(result.decision.as_str(), "BLOCK");
    assert_eq!(result.confidence, 950_000_000);
    assert!(result.fraud_ring_detected);
}

#[test]
fn any_failing_agent_fails_the_analysis() {
    let analyzer = FraudAnalyzer::new();
    let txn = usual_txn();
    for failing in 0..5 {
        let outcome = analyzer.analyze_transaction_at(
            &txn,
            if failing == 0 { Err(store_failure("pattern")) } else { Ok(usual_pattern()) },
            if failing == 1 { Err(store_failure("anomaly")) } else { Ok(usual_anomaly()) },
            if failing == 2 { Err(store_failure("geographic")) } else { Ok(usual_geographic()) },
            if failing == 3 { Err(store_failure("merchant")) } else { Ok(usual_merchant()) },
            if failing == 4 { Err(store_failure("network")) } else { Ok(usual_network()) },
            14,
            5,
        );
        let expected = ["pattern", "anomaly", "geographic", "merchant", "network"][failing];
        match outcome {
            Err(AgentError::Store(message)) => assert_eq!(message, expected),
            other => panic!("no failure reported: {:?}", other),
        }
    }
}

#[test]
fn the_first_failure_in_agent_order_is_reported() {
    let outcome = FraudAnalyzer::new().analyze_transaction_at(
        &usual_txn(),
        Ok(usual_pattern()),
        Err(AgentError::Store("anomaly query".to_string())),
        Ok(usual_geographic()),
        Err(AgentError::Store("merchant query".to_string())),
        Err(AgentError::Store("network query".to_string())),
        14,
        5,
    );
    match outcome {
        Err(failure) => assert_eq!(failure.message(), "anomaly query"),
        Ok(_) => panic!("a partial result leaked"),
    }
    let embedding = FraudAnalyzer::new().analyze_transaction_at(
        &usual_txn(),
        Err(AgentError::Embedding("Tokenization error: empty".to_string())),
        Err(AgentError::Store("anomaly query".to_string())),
        Ok(usual_geographic()),
        Ok(usual_merchant()),
        Ok(usual_network()),
        14,
        5,
    );
    match embedding {
        Err(failure) => {
            assert_eq!(failure.message(), "Embedding failed: Tokenization error: empty")
        }
        Ok(_) => panic!("a partial result leaked"),
    }
}

#[test]
fn the_clocked_analysis_agrees_with_the_timed_one() {
    let analyzer = FraudAnalyzer::new();
    let started = std::time::Instant::now();
    let result = analyzer
        .analyze_transaction(
            &started,
            &usual_txn(),
            Ok(usual_pattern()),
            Ok(usual_anomaly()),
            Ok(usual_geographic()),
            Ok(usual_merchant()),
            Ok(usual_network()),
        )
        .unwrap();
    assert!(result.latency_ms < 20_000);
    let agreeing = (0u32..24).filter(|hour| {
        let at = analyzer
            .analyze_transaction_at(
                &usual_txn(),
                Ok(usual_pattern()),
                Ok(usual_anomaly()),
                Ok(usual_geographic()),
                Ok(usual_merchant()),
                Ok(usual_network()),
                *hour,
                result.latency_ms,
            )
            .unwrap();
        at.decision == result.decision
            && at.confidence == result.confidence
            && at.agent_scores == result.agent_scores
            && at.reasoning == result.reasoning
    });
    assert!(agreeing.count() >= 1);
    assert_eq!(result.decision, Decision::Approve);

    let failed = analyzer.analyze_transaction(
        &started,
        &usual_txn(),
        Ok(usual_pattern()),
        Ok(usual_anomaly()),
        Err(AgentError::Store("connection reset".to_string())),
        Ok(usual_merchant()),
        Ok(usual_network()),
    );
    assert!(matches!(failed, Err(AgentError::Store(_))));
}

#[test]
fn latency_grows_with_the_time_since_the_start() {
    let started = std::time::Instant::now() - std::time::Duration::from_millis(250);
    let result = FraudAnalyzer::new()
        .analyze_transaction(
            &started,
            &usual_txn(),
            Ok(usual_pattern()),
            Ok(usual_anomaly()),
            Ok(usual_geographic()),
            Ok(usual_merchant()),
            Ok(usual_network()),
        )
        .unwrap();
    assert!(result.latency_ms >= 250);
}
