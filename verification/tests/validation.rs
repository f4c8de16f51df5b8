use edr_provider::{
    validate_call_request, validate_eip3860_max_initcode_size, validate_post_merge_block_tags,
    validate_transaction_and_call_request, validate_transaction_spec, AccessList, AccessListItem,
    Address, BlockSpec, BlockTag, Bytes, CallRequest, Eip1559SignedTransaction,
    Eip155SignedTransaction, Eip1898BlockSpec, Eip2930SignedTransaction, Eip4844SignedTransaction,
    EthTransactionRequest, LegacySignedTransaction, PreEip1898BlockSpec, ProviderError, Signature,
    SignedTransaction, SpecId, SpecValidationData, TransactionKind, ValidationBlockSpec, B256,
    MAX_CODE_SIZE, MAX_INITCODE_SIZE, U256,
};

fn assert_unsupported_eip_1559_parameters(spec: SpecId) {
    let eip_1559_request = EthTransactionRequest {
        from: Address::zero(),
        max_fee_per_gas: Some(U256::zero()),
        ..EthTransactionRequest::default()
    };

    assert!(matches!(
        validate_transaction_spec(spec, (&eip_1559_request).into()),
        Err(ProviderError::UnsupportedEIP1559Parameters { .. })
    ));

    let eip_1559_request = EthTransactionRequest {
        from: Address::zero(),
        max_priority_fee_per_gas: Some(U256::zero()),
        ..EthTransactionRequest::default()
    };

    assert!(matches!(
        validate_transaction_spec(spec, (&eip_1559_request).into()),
        Err(ProviderError::UnsupportedEIP1559Parameters { .. })
    ));
}

fn assert_unsupported_eip_4844_parameters(spec: SpecId) {
    let eip_4844_request = EthTransactionRequest {
        from: Address::zero(),
        blobs: Some(Vec::new()),
        ..EthTransactionRequest::default()
    };

    assert!(matches!(
        validate_transaction_spec(spec, (&eip_4844_request).into()),
        Err(ProviderError::UnsupportedEIP4844Parameters { .. })
    ));

    let eip_4844_request = EthTransactionRequest {
        from: Address::zero(),
        blob_hashes: Some(Vec::new()),
        ..EthTransactionRequest::default()
    };

    assert!(matches!(
        validate_transaction_spec(spec, (&eip_4844_request).into()),
        Err(ProviderError::UnsupportedEIP4844Parameters { .. })
    ));
}

#[test]
fn validate_transaction_spec_eip_155_invalid_inputs() {
    let eip155_spec = SpecId::MUIR_GLACIER;
    let valid_request = EthTransactionRequest {
        from: Address::zero(),
        gas_price: Some(U256::zero()),
        ..EthTransactionRequest::default()
    };

    assert!(validate_transaction_spec(eip155_spec, (&valid_request).into()).is_ok());

    let eip_2930_request = EthTransactionRequest {
        from: Address::zero(),
        access_list: Some(Vec::new()),
        ..EthTransactionRequest::default()
    };

    assert!(matches!(
        validate_transaction_spec(eip155_spec, (&eip_2930_request).into()),
        Err(ProviderError::UnsupportedAccessListParameter { .. })
    ));

    assert_unsupported_eip_1559_parameters(eip155_spec);
    assert_unsupported_eip_4844_parameters(eip155_spec);
}

#[test]
fn validate_transaction_spec_eip_2930_invalid_inputs() {
    let eip2930_spec = SpecId::BERLIN;
    let valid_request = EthTransactionRequest {
        from: Address::zero(),
        gas_price: Some(U256::zero()),
        access_list: Some(Vec::new()),
        ..EthTransactionRequest::default()
    };

    assert!(validate_transaction_spec(eip2930_spec, (&valid_request).into()).is_ok());

    assert_unsupported_eip_1559_parameters(eip2930_spec);
    assert_unsupported_eip_4844_parameters(eip2930_spec);
}

#[test]
fn validate_transaction_spec_eip_1559_invalid_inputs() {
    let eip1559_spec = SpecId::LONDON;
    let valid_request = EthTransactionRequest {
        from: Address::zero(),
        max_fee_per_gas: Some(U256::zero()),
        max_priority_fee_per_gas: Some(U256::zero()),
        access_list: Some(Vec::new()),
        ..EthTransactionRequest::default()
    };

    assert!(validate_transaction_spec(eip1559_spec, (&valid_request).into()).is_ok());

    assert_unsupported_eip_4844_parameters(eip1559_spec);

    let mixed_request = EthTransactionRequest {
        from: Address::zero(),
        gas_price: Some(U256::zero()),
        max_fee_per_gas: Some(U256::zero()),
        ..EthTransactionRequest::default()
    };

    assert!(matches!(
        validate_transaction_spec(eip1559_spec, (&mixed_request).into()),
        Err(ProviderError::InvalidTransactionInput(_))
    ));

    let mixed_request = EthTransactionRequest {
        from: Address::zero(),
        gas_price: Some(U256::zero()),
        max_priority_fee_per_gas: Some(U256::zero()),
        ..EthTransactionRequest::default()
    };

    assert!(matches!(
        validate_transaction_spec(eip1559_spec, (&mixed_request).into()),
        Err(ProviderError::InvalidTransactionInput(_))
    ));

    let request_with_too_low_max_fee = EthTransactionRequest {
        from: Address::zero(),
        max_fee_per_gas: Some(U256::zero()),
        max_priority_fee_per_gas: Some(U256::from(1u64)),
        ..EthTransactionRequest::default()
    };

    assert!(matches!(
        validate_transaction_spec(eip1559_spec, (&request_with_too_low_max_fee).into()),
        Err(ProviderError::InvalidTransactionInput(_))
    ));
}

const ALL_HARDFORKS: [SpecId; 19] = [
    SpecId::FRONTIER,
    SpecId::FRONTIER_THAWING,
    SpecId::HOMESTEAD,
    SpecId::DAO_FORK,
    SpecId::TANGERINE,
    SpecId::SPURIOUS_DRAGON,
    SpecId::BYZANTIUM,
    SpecId::CONSTANTINOPLE,
    SpecId::PETERSBURG,
    SpecId::ISTANBUL,
    SpecId::MUIR_GLACIER,
    SpecId::BERLIN,
    SpecId::LONDON,
    SpecId::ARROW_GLACIER,
    SpecId::GRAY_GLACIER,
    SpecId::MERGE,
    SpecId::SHANGHAI,
    SpecId::CANCUN,
    SpecId::LATEST,
];

fn request() -> EthTransactionRequest {
    EthTransactionRequest::default()
}

fn access_list_item() -> AccessListItem {
    AccessListItem {
        address: Address([0x11; 20]),
        storage_keys: vec![B256([0x22; 32])],
    }
}

fn invalid_input(detail: &str) -> Result<(), ProviderError> {
    Err(ProviderError::InvalidTransactionInput(detail.to_string()))
}

#[test]
fn access_list_needs_berlin() {
    let with_access_list = EthTransactionRequest {
        access_list: Some(vec![access_list_item()]),
        ..request()
    };
    for hardfork in ALL_HARDFORKS {
        let result = validate_transaction_spec(hardfork, (&with_access_list).into());
        if hardfork.number() < SpecId::BERLIN.number() {
            assert_eq!(
                result,
                Err(ProviderError::UnsupportedAccessListParameter {
                    current_hardfork: hardfork,
                    minimum_hardfork: SpecId::BERLIN,
                })
            );
        } else {
            assert_eq!(result, Ok(()));
        }
    }
}

#[test]
fn empty_access_list_at_berlin_and_before() {
    let with_empty_access_list = EthTransactionRequest {
        access_list: Some(Vec::new()),
        ..request()
    };
    assert_eq!(
        validate_transaction_spec(SpecId::BERLIN, (&with_empty_access_list).into()),
        Ok(())
    );
    assert_eq!(
        validate_transaction_spec(SpecId::MUIR_GLACIER, (&with_empty_access_list).into()),
        Err(ProviderError::UnsupportedAccessListParameter {
            current_hardfork: SpecId::MUIR_GLACIER,
            minimum_hardfork: SpecId::BERLIN,
        })
    );
}

#[test]
fn fee_market_fields_need_london() {
    let with_max_fee = EthTransactionRequest {
        max_fee_per_gas: Some(U256::from(7u64)),
        ..request()
    };
    let with_priority_fee = EthTransactionRequest {
        max_priority_fee_per_gas: Some(U256::from(7u64)),
        ..request()
    };
    for hardfork in ALL_HARDFORKS {
        for fee_request in [&with_max_fee, &with_priority_fee] {
            let result = validate_transaction_spec(hardfork, fee_request.into());
            if hardfork.number() < SpecId::LONDON.number() {
                assert_eq!(
                    result,
                    Err(ProviderError::UnsupportedEIP1559Parameters {
                        current_hardfork: hardfork,
                        minimum_hardfork: SpecId::LONDON,
                    })
                );
            } else {
                assert_eq!(result, Ok(()));
            }
        }
    }
}

#[test]
fn blob_fields_need_cancun() {
    let with_blobs = EthTransactionRequest {
        blobs: Some(vec![Bytes(vec![1, 2, 3])]),
        ..request()
    };
    let with_blob_hashes = EthTransactionRequest {
        blob_hashes: Some(vec![B256([0x01; 32])]),
        ..request()
    };
    for hardfork in ALL_HARDFORKS {
        for blob_request in [&with_blobs, &with_blob_hashes] {
            let result = validate_transaction_spec(hardfork, blob_request.into());
            if hardfork.number() < SpecId::CANCUN.number() {
                assert_eq!(
                    result,
                    Err(ProviderError::UnsupportedEIP4844Parameters {
                        current_hardfork: hardfork,
                        minimum_hardfork: SpecId::CANCUN,
                    })
                );
            } else {
                assert_eq!(result, Ok(()));
            }
        }
    }
}

#[test]
fn access_list_is_reported_before_fee_market_and_blobs() {
    let everything = EthTransactionRequest {
        access_list: Some(Vec::new()),
        max_fee_per_gas: Some(U256::zero()),
        blobs: Some(Vec::new()),
        ..request()
    };
    assert_eq!(
        validate_transaction_spec(SpecId::ISTANBUL, (&everything).into()),
        Err(ProviderError::UnsupportedAccessListParameter {
            current_hardfork: SpecId::ISTANBUL,
            minimum_hardfork: SpecId::BERLIN,
        })
    );
    assert_eq!(
        validate_transaction_spec(SpecId::BERLIN, (&everything).into()),
        Err(ProviderError::UnsupportedEIP1559Parameters {
            current_hardfork: SpecId::BERLIN,
            minimum_hardfork: SpecId::LONDON,
        })
    );
    assert_eq!(
        validate_transaction_spec(SpecId::SHANGHAI, (&everything).into()),
        Err(ProviderError::UnsupportedEIP4844Parameters {
            current_hardfork: SpecId::SHANGHAI,
            minimum_hardfork: SpecId::CANCUN,
        })
    );
    assert_eq!(
        validate_transaction_spec(SpecId::CANCUN, (&everything).into()),
        Ok(())
    );
}

#[test]
fn gas_price_excludes_fee_market_and_blob_fields() {
    let gas_price = Some(U256::from(3u64));
    let with_max_fee = EthTransactionRequest {
        gas_price,
        max_fee_per_gas: Some(U256::zero()),
        ..request()
    };
    let with_priority_fee = EthTransactionRequest {
        gas_price,
        max_priority_fee_per_gas: Some(U256::zero()),
        ..request()
    };
    let with_blobs = EthTransactionRequest {
        gas_price,
        blobs: Some(Vec::new()),
        ..request()
    };
    let with_blob_hashes = EthTransactionRequest {
        gas_price,
        blob_hashes: Some(Vec::new()),
        ..request()
    };
    for hardfork in [SpecId::CANCUN, SpecId::LATEST] {
        assert_eq!(
            validate_transaction_spec(hardfork, (&with_max_fee).into()),
            invalid_input("Cannot send both gasPrice and maxFeePerGas params")
        );
        assert_eq!(
            validate_transaction_spec(hardfork, (&with_priority_fee).into()),
            invalid_input("Cannot send both gasPrice and maxPriorityFeePerGas")
        );
        assert_eq!(
            validate_transaction_spec(hardfork, (&with_blobs).into()),
            invalid_input("Cannot send both gasPrice and blobs")
        );
        assert_eq!(
            validate_transaction_spec(hardfork, (&with_blob_hashes).into()),
            invalid_input("Cannot send both gasPrice and blobHashes")
        );
    }
}

#[test]
fn gas_price_with_every_other_field_names_the_max_fee() {
    let crowded = EthTransactionRequest {
        gas_price: Some(U256::zero()),
        max_fee_per_gas: Some(U256::zero()),
        max_priority_fee_per_gas: Some(U256::from(9u64)),
        blobs: Some(Vec::new()),
        blob_hashes: Some(Vec::new()),
        ..request()
    };
    assert_eq!(
        validate_transaction_spec(SpecId::CANCUN, (&crowded).into()),
        invalid_input("Cannot send both gasPrice and maxFeePerGas params")
    );
}

#[test]
fn gas_price_and_max_fee_at_london() {
    let mixed = EthTransactionRequest {
        gas_price: Some(U256::zero()),
        max_fee_per_gas: Some(U256::zero()),
        ..request()
    };
    assert_eq!(
        validate_transaction_spec(SpecId::LONDON, (&mixed).into()),
        invalid_input("Cannot send both gasPrice and maxFeePerGas params")
    );
}

#[test]
fn gas_price_and_max_fee_before_london_is_unsupported() {
    let mixed = EthTransactionRequest {
        gas_price: Some(U256::zero()),
        max_fee_per_gas: Some(U256::zero()),
        ..request()
    };
    assert_eq!(
        validate_transaction_spec(SpecId::MUIR_GLACIER, (&mixed).into()),
        Err(ProviderError::UnsupportedEIP1559Parameters {
            current_hardfork: SpecId::MUIR_GLACIER,
            minimum_hardfork: SpecId::LONDON,
        })
    );
}

#[test]
fn priority_fee_above_max_fee_at_london() {
    let inverted = EthTransactionRequest {
        max_fee_per_gas: Some(U256::from(0u64)),
        max_priority_fee_per_gas: Some(U256::from(1u64)),
        ..request()
    };
    assert_eq!(
        validate_transaction_spec(SpecId::LONDON, (&inverted).into()),
        invalid_input("maxPriorityFeePerGas (1) is bigger than maxFeePerGas (0)")
    );
}

#[test]
fn priority_fee_equal_to_max_fee_passes() {
    let equal = EthTransactionRequest {
        max_fee_per_gas: Some(U256::from(5u64)),
        max_priority_fee_per_gas: Some(U256::from(5u64)),
        ..request()
    };
    assert_eq!(
        validate_transaction_spec(SpecId::LONDON, (&equal).into()),
        Ok(())
    );
}

#[test]
fn priority_fee_above_max_fee_states_large_values() {
    let inverted = EthTransactionRequest {
        max_fee_per_gas: Some(U256::from_limbs([u64::MAX, 0, 0, 0])),
        max_priority_fee_per_gas: Some(U256::from_limbs([0, 1, 0, 0])),
        ..request()
    };
    assert_eq!(
        validate_transaction_spec(SpecId::CANCUN, (&inverted).into()),
        invalid_input(
            "maxPriorityFeePerGas (18446744073709551616) is bigger than maxFeePerGas (18446744073709551615)"
        )
    );
    let in_order = EthTransactionRequest {
        max_fee_per_gas: Some(U256::from_limbs([0, 1, 0, 0])),
        max_priority_fee_per_gas: Some(U256::from_limbs([u64::MAX, 0, 0, 0])),
        ..request()
    };
    assert_eq!(
        validate_transaction_spec(SpecId::CANCUN, (&in_order).into()),
        Ok(())
    );
}

#[test]
fn transaction_request_is_not_changed_by_a_plain_gas_price() {
    let plain = EthTransactionRequest {
        gas_price: Some(U256::from(1u64)),
        ..request()
    };
    for hardfork in ALL_HARDFORKS {
        assert_eq!(validate_transaction_spec(hardfork, (&plain).into()), Ok(()));
        assert_eq!(validate_transaction_and_call_request(hardfork, &plain), Ok(()));
    }
}

#[test]
fn unsupported_access_list_becomes_advice() {
    let with_access_list = EthTransactionRequest {
        access_list: Some(Vec::new()),
        ..request()
    };
    assert_eq!(
        validate_transaction_and_call_request(SpecId::MUIR_GLACIER, &with_access_list),
        Err(ProviderError::InvalidArgument(
            "Access list received but is not supported by the current hardfork. \n\nYou can use them by running Hardhat Network with 'hardfork' BERLIN or later."
                .to_string()
        ))
    );
    assert_eq!(
        validate_transaction_and_call_request(SpecId::BERLIN, &with_access_list),
        Ok(())
    );
}

#[test]
fn other_violations_pass_through_transaction_validation() {
    let with_max_fee = EthTransactionRequest {
        max_fee_per_gas: Some(U256::zero()),
        ..request()
    };
    assert_eq!(
        validate_transaction_and_call_request(SpecId::BERLIN, &with_max_fee),
        Err(ProviderError::UnsupportedEIP1559Parameters {
            current_hardfork: SpecId::BERLIN,
            minimum_hardfork: SpecId::LONDON,
        })
    );
    let with_blobs = EthTransactionRequest {
        blobs: Some(Vec::new()),
        ..request()
    };
    assert_eq!(
        validate_transaction_and_call_request(SpecId::LONDON, &with_blobs),
        Err(ProviderError::UnsupportedEIP4844Parameters {
            current_hardfork: SpecId::LONDON,
            minimum_hardfork: SpecId::CANCUN,
        })
    );
    let mixed = EthTransactionRequest {
        gas_price: Some(U256::zero()),
        blob_hashes: Some(Vec::new()),
        ..request()
    };
    assert_eq!(
        validate_transaction_and_call_request(SpecId::CANCUN, &mixed),
        invalid_input("Cannot send both gasPrice and blobHashes")
    );
}

#[test]
fn validation_data_passed_as_such() {
    let with_access_list = EthTransactionRequest {
        access_list: Some(Vec::new()),
        ..request()
    };
    let data = SpecValidationData::from(&with_access_list);
    assert!(matches!(
        validate_transaction_and_call_request(SpecId::ISTANBUL, data),
        Err(ProviderError::InvalidArgument(_))
    ));
}

#[test]
fn call_request_fee_market_fields_become_advice() {
    let call_request = CallRequest {
        max_fee_per_gas: Some(U256::zero()),
        ..CallRequest::default()
    };
    assert_eq!(
        validate_call_request(
            SpecId::BERLIN,
            &call_request,
            &BlockSpec::Tag(BlockTag::Latest)
        ),
        Err(ProviderError::InvalidArgument(
            "EIP-1559 style fee params (maxFeePerGas or maxPriorityFeePerGas) received but they are not supported by the current hardfork.\n\nYou can use them by running Hardhat Network with 'hardfork' LONDON or later."
                .to_string()
        ))
    );
    assert_eq!(
        validate_call_request(
            SpecId::LONDON,
            &call_request,
            &BlockSpec::Tag(BlockTag::Latest)
        ),
        Ok(())
    );
}

#[test]
fn call_request_access_list_becomes_advice() {
    let call_request = CallRequest {
        access_list: Some(vec![access_list_item()]),
        max_priority_fee_per_gas: Some(U256::zero()),
        ..CallRequest::default()
    };
    assert_eq!(
        validate_call_request(SpecId::FRONTIER, &call_request, &BlockSpec::Number(1)),
        Err(ProviderError::InvalidArgument(
            "Access list received but is not supported by the current hardfork. \n\nYou can use them by running Hardhat Network with 'hardfork' BERLIN or later."
                .to_string()
        ))
    );
}

#[test]
fn call_request_block_tag_is_reported_first() {
    let call_request = CallRequest {
        access_list: Some(Vec::new()),
        max_fee_per_gas: Some(U256::zero()),
        ..CallRequest::default()
    };
    assert_eq!(
        validate_call_request(
            SpecId::MUIR_GLACIER,
            &call_request,
            &BlockSpec::Tag(BlockTag::Finalized)
        ),
        Err(ProviderError::InvalidBlockTag {
            block_tag: BlockTag::Finalized,
            spec: SpecId::MUIR_GLACIER,
        })
    );
}

#[test]
fn call_request_other_violations_pass_through() {
    let with_blobs = CallRequest {
        blob_hashes: Some(Vec::new()),
        ..CallRequest::default()
    };
    assert_eq!(
        validate_call_request(SpecId::MERGE, &with_blobs, &BlockSpec::Tag(BlockTag::Safe)),
        Err(ProviderError::UnsupportedEIP4844Parameters {
            current_hardfork: SpecId::MERGE,
            minimum_hardfork: SpecId::CANCUN,
        })
    );
    let inverted = CallRequest {
        max_fee_per_gas: Some(U256::from(10u64)),
        max_priority_fee_per_gas: Some(U256::from(11u64)),
        ..CallRequest::default()
    };
    assert_eq!(
        validate_call_request(SpecId::LONDON, &inverted, &BlockSpec::Number(0)),
        invalid_input("maxPriorityFeePerGas (11) is bigger than maxFeePerGas (10)")
    );
    assert_eq!(
        validate_call_request(
            SpecId::CANCUN,
            &CallRequest::default(),
            &BlockSpec::Tag(BlockTag::Pending)
        ),
        Ok(())
    );
}

#[test]
fn safe_tag_needs_the_merge() {
    let safe = BlockSpec::Tag(BlockTag::Safe);
    assert_eq!(
        validate_post_merge_block_tags(SpecId::GRAY_GLACIER, &safe),
        Err(ProviderError::InvalidBlockTag {
            block_tag: BlockTag::Safe,
            spec: SpecId::GRAY_GLACIER,
        })
    );
    assert_eq!(validate_post_merge_block_tags(SpecId::MERGE, &safe), Ok(()));
    assert_eq!(validate_post_merge_block_tags(SpecId::CANCUN, &safe), Ok(()));
}

#[test]
fn block_tags_in_both_wire_shapes() {
    let tags = [
        BlockTag::Earliest,
        BlockTag::Latest,
        BlockTag::Pending,
        BlockTag::Safe,
        BlockTag::Finalized,
    ];
    for hardfork in ALL_HARDFORKS {
        for tag in tags {
            let older = PreEip1898BlockSpec::Tag(tag);
            let newer = BlockSpec::Tag(tag);
            let expected = if hardfork.number() < SpecId::MERGE.number()
                && (tag == BlockTag::Safe || tag == BlockTag::Finalized)
            {
                Err(ProviderError::InvalidBlockTag {
                    block_tag: tag,
                    spec: hardfork,
                })
            } else {
                Ok(())
            };
            assert_eq!(validate_post_merge_block_tags(hardfork, &older), expected);
            assert_eq!(validate_post_merge_block_tags(hardfork, &newer), expected);
            assert_eq!(
                validate_post_merge_block_tags(hardfork, ValidationBlockSpec::PreEip1898(&older)),
                expected
            );
        }
    }
}

#[test]
fn block_numbers_and_hashes_are_valid_at_every_hardfork() {
    let by_hash = BlockSpec::Eip1898(Eip1898BlockSpec::Hash {
        block_hash: B256([0xab; 32]),
        require_canonical: Some(true),
    });
    let by_number = BlockSpec::Eip1898(Eip1898BlockSpec::Number { block_number: 12 });
    for hardfork in ALL_HARDFORKS {
        assert_eq!(validate_post_merge_block_tags(hardfork, &by_hash), Ok(()));
        assert_eq!(validate_post_merge_block_tags(hardfork, &by_number), Ok(()));
        assert_eq!(
            validate_post_merge_block_tags(hardfork, &BlockSpec::Number(u64::MAX)),
            Ok(())
        );
        assert_eq!(
            validate_post_merge_block_tags(hardfork, &PreEip1898BlockSpec::Number(0)),
            Ok(())
        );
    }
}

#[test]
fn block_spec_normalization() {
    let older_number = PreEip1898BlockSpec::Number(77);
    let older_tag = PreEip1898BlockSpec::Tag(BlockTag::Safe);
    let newer = BlockSpec::Eip1898(Eip1898BlockSpec::Number { block_number: 3 });
    assert_eq!(
        BlockSpec::from(ValidationBlockSpec::from(&older_number)),
        BlockSpec::Number(77)
    );
    assert_eq!(
        BlockSpec::from(ValidationBlockSpec::from(&older_tag)),
        BlockSpec::Tag(BlockTag::Safe)
    );
    assert_eq!(BlockSpec::from(ValidationBlockSpec::from(&newer)), newer);
    assert_eq!(older_number.normalized(), BlockSpec::Number(77));
    assert_eq!(older_tag.normalized(), BlockSpec::Tag(BlockTag::Safe));
}

#[test]
fn initcode_size_limit() {
    let at_limit = Bytes(vec![0u8; MAX_INITCODE_SIZE]);
    let over_limit = Bytes(vec![0u8; MAX_INITCODE_SIZE + 1]);
    assert_eq!(MAX_INITCODE_SIZE, 49152);
    assert_eq!(MAX_INITCODE_SIZE, 2 * MAX_CODE_SIZE);
    assert_eq!(
        validate_eip3860_max_initcode_size(SpecId::SHANGHAI, false, &None, &at_limit),
        Ok(())
    );
    let too_long = Err(ProviderError::InvalidArgument(
        "\nTrying to send a deployment transaction whose init code length is 49153. The max length allowed by EIP-3860 is 49152.\n\nEnable the 'allowUnlimitedContractSize' option to allow init codes of any length."
            .to_string(),
    ));
    assert_eq!(
        validate_eip3860_max_initcode_size(SpecId::SHANGHAI, false, &None, &over_limit),
        too_long
    );
    assert_eq!(
        validate_eip3860_max_initcode_size(SpecId::CANCUN, false, &None, &over_limit),
        too_long
    );
    assert_eq!(
        validate_eip3860_max_initcode_size(SpecId::LATEST, false, &None, &over_limit),
        too_long
    );
}

#[test]
fn initcode_size_limit_does_not_apply() {
    let over_limit = Bytes(vec![0u8; MAX_INITCODE_SIZE + 1]);
    let destination = Some(Address([0x42; 20]));
    assert_eq!(
        validate_eip3860_max_initcode_size(SpecId::MERGE, false, &None, &over_limit),
        Ok(())
    );
    assert_eq!(
        validate_eip3860_max_initcode_size(SpecId::SHANGHAI, true, &None, &over_limit),
        Ok(())
    );
    assert_eq!(
        validate_eip3860_max_initcode_size(SpecId::SHANGHAI, false, &destination, &over_limit),
        Ok(())
    );
    assert_eq!(
        validate_eip3860_max_initcode_size(SpecId::SHANGHAI, false, &None, &Bytes::new()),
        Ok(())
    );
}

fn signature() -> Signature {
    Signature {
        r: U256::from(1u64),
        s: U256::from(2u64),
        v: 27,
    }
}

fn legacy(gas_price: u64) -> LegacySignedTransaction {
    LegacySignedTransaction {
        nonce: 0,
        gas_price: U256::from(gas_price),
        gas_limit: 21_000,
        kind: TransactionKind::Call(Address([0x01; 20])),
        value: U256::zero(),
        input: Bytes::new(),
        signature: signature(),
    }
}

fn eip155(gas_price: u64) -> Eip155SignedTransaction {
    Eip155SignedTransaction {
        nonce: 0,
        gas_price: U256::from(gas_price),
        gas_limit: 21_000,
        kind: TransactionKind::Create,
        value: U256::zero(),
        input: Bytes::new(),
        signature: signature(),
    }
}

fn eip2930(gas_price: u64) -> Eip2930SignedTransaction {
    Eip2930SignedTransaction {
        chain_id: 1,
        nonce: 0,
        gas_price: U256::from(gas_price),
        gas_limit: 21_000,
        kind: TransactionKind::Create,
        value: U256::zero(),
        input: Bytes::new(),
        access_list: AccessList(vec![access_list_item()]),
        odd_y_parity: false,
        r: U256::from(1u64),
        s: U256::from(2u64),
    }
}

fn eip1559(max_fee: u64, priority_fee: u64) -> Eip1559SignedTransaction {
    Eip1559SignedTransaction {
        chain_id: 1,
        nonce: 0,
        max_priority_fee_per_gas: U256::from(priority_fee),
        max_fee_per_gas: U256::from(max_fee),
        gas_limit: 21_000,
        kind: TransactionKind::Create,
        value: U256::zero(),
        input: Bytes::new(),
        access_list: AccessList(Vec::new()),
        odd_y_parity: true,
        r: U256::from(1u64),
        s: U256::from(2u64),
    }
}

fn eip4844(max_fee: u64, priority_fee: u64) -> Eip4844SignedTransaction {
    Eip4844SignedTransaction {
        chain_id: 1,
        nonce: 0,
        max_priority_fee_per_gas: U256::from(priority_fee),
        max_fee_per_gas: U256::from(max_fee),
        max_fee_per_blob_gas: U256::from(1u64),
        gas_limit: 21_000,
        to: Address([0x01; 20]),
        value: U256::zero(),
        input: Bytes::new(),
        access_list: AccessList(Vec::new()),
        blob_hashes: vec![B256([0x01; 32])],
        odd_y_parity: true,
        r: U256::from(1u64),
        s: U256::from(2u64),
    }
}

#[test]
fn signed_transaction_fields() {
    let signed_legacy = SignedTransaction::PreEip155Legacy(legacy(5));
    let data = SpecValidationData::from(&signed_legacy);
    assert_eq!(data.gas_price, Some(&U256::from(5u64)));
    assert!(data.max_fee_per_gas.is_none());
    assert!(data.max_priority_fee_per_gas.is_none());
    assert!(data.access_list.is_none());
    assert!(data.blobs.is_none());
    assert!(data.blob_hashes.is_none());

    let signed_eip155 = SignedTransaction::PostEip155Legacy(eip155(6));
    let data = SpecValidationData::from(&signed_eip155);
    assert_eq!(data.gas_price, Some(&U256::from(6u64)));
    assert!(data.max_fee_per_gas.is_none());
    assert!(data.max_priority_fee_per_gas.is_none());
    assert!(data.access_list.is_none());
    assert!(data.blobs.is_none());
    assert!(data.blob_hashes.is_none());

    let signed_eip2930 = SignedTransaction::Eip2930(eip2930(7));
    let data = SpecValidationData::from(&signed_eip2930);
    assert_eq!(data.gas_price, Some(&U256::from(7u64)));
    assert!(data.max_fee_per_gas.is_none());
    assert!(data.max_priority_fee_per_gas.is_none());
    assert_eq!(data.access_list, Some(&vec![access_list_item()]));
    assert!(data.blobs.is_none());
    assert!(data.blob_hashes.is_none());

    let signed_eip1559 = SignedTransaction::Eip1559(eip1559(9, 8));
    let data = SpecValidationData::from(&signed_eip1559);
    assert!(data.gas_price.is_none());
    assert_eq!(data.max_fee_per_gas, Some(&U256::from(9u64)));
    assert_eq!(data.max_priority_fee_per_gas, Some(&U256::from(8u64)));
    assert_eq!(data.access_list, Some(&Vec::new()));
    assert!(data.blobs.is_none());
    assert!(data.blob_hashes.is_none());

    let signed_eip4844 = SignedTransaction::Eip4844(eip4844(11, 10));
    let data = SpecValidationData::from(&signed_eip4844);
    assert!(data.gas_price.is_none());
    assert_eq!(data.max_fee_per_gas, Some(&U256::from(11u64)));
    assert_eq!(data.max_priority_fee_per_gas, Some(&U256::from(10u64)));
    assert_eq!(data.access_list, Some(&Vec::new()));
    assert!(data.blobs.is_none());
    assert_eq!(data.blob_hashes, Some(&vec![B256([0x01; 32])]));
}

#[test]
fn signed_transactions_at_their_hardforks() {
    let signed_legacy = SignedTransaction::PreEip155Legacy(legacy(5));
    let signed_eip155 = SignedTransaction::PostEip155Legacy(eip155(5));
    let signed_eip2930 = SignedTransaction::Eip2930(eip2930(5));
    let signed_eip1559 = SignedTransaction::Eip1559(eip1559(9, 8));
    let signed_eip4844 = SignedTransaction::Eip4844(eip4844(9, 8));

    assert_eq!(validate_transaction_and_call_request(SpecId::FRONTIER, &signed_legacy), Ok(()));
    assert_eq!(validate_transaction_and_call_request(SpecId::FRONTIER, &signed_eip155), Ok(()));

    assert!(matches!(
        validate_transaction_and_call_request(SpecId::MUIR_GLACIER, &signed_eip2930),
        Err(ProviderError::InvalidArgument(_))
    ));
    assert_eq!(validate_transaction_and_call_request(SpecId::BERLIN, &signed_eip2930), Ok(()));

    assert_eq!(
        validate_transaction_and_call_request(SpecId::BERLIN, &signed_eip1559),
        Err(ProviderError::UnsupportedEIP1559Parameters {
            current_hardfork: SpecId::BERLIN,
            minimum_hardfork: SpecId::LONDON,
        })
    );
    assert_eq!(validate_transaction_and_call_request(SpecId::LONDON, &signed_eip1559), Ok(()));

    assert_eq!(
        validate_transaction_and_call_request(SpecId::SHANGHAI, &signed_eip4844),
        Err(ProviderError::UnsupportedEIP4844Parameters {
            current_hardfork: SpecId::SHANGHAI,
            minimum_hardfork: SpecId::CANCUN,
        })
    );
    assert_eq!(validate_transaction_and_call_request(SpecId::CANCUN, &signed_eip4844), Ok(()));

    let inverted = SignedTransaction::Eip1559(eip1559(1, 2));
    assert_eq!(
        validate_transaction_and_call_request(SpecId::LONDON, &inverted),
        invalid_input("maxPriorityFeePerGas (2) is bigger than maxFeePerGas (1)")
    );
}

#[test]
fn the_three_shapes_are_reported_alike() {
    let fee_cases: [(Option<U256>, Option<U256>, Option<U256>); 6] = [
        (None, None, None),
        (Some(U256::from(1u64)), None, None),
        (None, Some(U256::from(2u64)), Some(U256::from(1u64))),
        (None, Some(U256::from(1u64)), Some(U256::from(2u64))),
        (Some(U256::from(1u64)), Some(U256::from(1u64)), None),
        (Some(U256::from(1u64)), None, Some(U256::from(1u64))),
    ];
    let list_cases: [(bool, bool, bool); 5] = [
        (false, false, false),
        (true, false, false),
        (false, true, false),
        (false, false, true),
        (true, true, true),
    ];
    for hardfork in ALL_HARDFORKS {
        for (gas_price, max_fee_per_gas, max_priority_fee_per_gas) in fee_cases {
            for (access_list, blobs, blob_hashes) in list_cases {
                let transaction_request = EthTransactionRequest {
                    from: Address([0x09; 20]),
                    nonce: Some(4),
                    gas_price,
                    max_fee_per_gas,
                    max_priority_fee_per_gas,
                    access_list: access_list.then(|| vec![access_list_item()]),
                    blobs: blobs.then(|| vec![Bytes(vec![7])]),
                    blob_hashes: blob_hashes.then(|| vec![B256([0x03; 32])]),
                    ..request()
                };
                let call_request = CallRequest {
                    to: Some(Address([0x08; 20])),
                    gas_price,
                    max_fee_per_gas,
                    max_priority_fee_per_gas,
                    access_list: access_list.then(|| vec![access_list_item()]),
                    blobs: blobs.then(|| vec![Bytes(vec![7])]),
                    blob_hashes: blob_hashes.then(|| vec![B256([0x03; 32])]),
                    ..CallRequest::default()
                };
                assert_eq!(
                    validate_transaction_spec(hardfork, (&transaction_request).into()),
                    validate_transaction_spec(hardfork, (&call_request).into())
                );
                assert_eq!(
                    validate_transaction_and_call_request(hardfork, &transaction_request),
                    validate_transaction_and_call_request(hardfork, &call_request)
                );
            }
        }
    }
}

#[test]
fn signed_transactions_are_reported_as_requests_with_their_fields() {
    let signed = [
        SignedTransaction::PreEip155Legacy(legacy(5)),
        SignedTransaction::PostEip155Legacy(eip155(5)),
        SignedTransaction::Eip2930(eip2930(5)),
        SignedTransaction::Eip1559(eip1559(9, 8)),
        SignedTransaction::Eip1559(eip1559(8, 9)),
        SignedTransaction::Eip4844(eip4844(9, 8)),
        SignedTransaction::Eip4844(eip4844(8, 9)),
    ];
    let requests = [
        EthTransactionRequest {
            gas_price: Some(U256::from(5u64)),
            ..request()
        },
        EthTransactionRequest {
            gas_price: Some(U256::from(5u64)),
            ..request()
        },
        EthTransactionRequest {
            gas_price: Some(U256::from(5u64)),
            access_list: Some(vec![access_list_item()]),
            ..request()
        },
        EthTransactionRequest {
            max_fee_per_gas: Some(U256::from(9u64)),
            max_priority_fee_per_gas: Some(U256::from(8u64)),
            access_list: Some(Vec::new()),
            ..request()
        },
        EthTransactionRequest {
            max_fee_per_gas: Some(U256::from(8u64)),
            max_priority_fee_per_gas: Some(U256::from(9u64)),
            access_list: Some(Vec::new()),
            ..request()
        },
        EthTransactionRequest {
            max_fee_per_gas: Some(U256::from(9u64)),
            max_priority_fee_per_gas: Some(U256::from(8u64)),
            access_list: Some(Vec::new()),
            blob_hashes: Some(vec![B256([0x01; 32])]),
            ..request()
        },
        EthTransactionRequest {
            max_fee_per_gas: Some(U256::from(8u64)),
            max_priority_fee_per_gas: Some(U256::from(9u64)),
            access_list: Some(Vec::new()),
            blob_hashes: Some(vec![B256([0x01; 32])]),
            ..request()
        },
    ];
    for hardfork in ALL_HARDFORKS {
        for (signed, request) in signed.iter().zip(requests.iter()) {
            assert_eq!(
                validate_transaction_spec(hardfork, signed.into()),
                validate_transaction_spec(hardfork, request.into())
            );
            assert_eq!(
                validate_transaction_and_call_request(hardfork, signed),
                validate_transaction_and_call_request(hardfork, request)
            );
        }
    }
}

#[test]
fn default_requests_hold_nothing() {
    let transaction_request = EthTransactionRequest::default();
    assert_eq!(transaction_request.from, Address::zero());
    assert_eq!(transaction_request.from, Address([0; 20]));
    assert!(transaction_request.to.is_none());
    assert!(transaction_request.gas_price.is_none());
    assert!(transaction_request.max_fee_per_gas.is_none());
    assert!(transaction_request.max_priority_fee_per_gas.is_none());
    assert!(transaction_request.access_list.is_none());
    assert!(transaction_request.blobs.is_none());
    assert!(transaction_request.blob_hashes.is_none());
    let call_request = CallRequest::default();
    assert!(call_request.from.is_none());
    assert!(call_request.gas_price.is_none());
    assert!(call_request.max_fee_per_gas.is_none());
    assert!(call_request.max_priority_fee_per_gas.is_none());
    assert!(call_request.access_list.is_none());
    assert!(call_request.blobs.is_none());
    assert!(call_request.blob_hashes.is_none());
    assert_eq!(B256::zero(), B256([0; 32]));
    for hardfork in ALL_HARDFORKS {
        assert_eq!(
            validate_transaction_spec(hardfork, (&transaction_request).into()),
            Ok(())
        );
        assert_eq!(
            validate_call_request(hardfork, &call_request, &BlockSpec::Tag(BlockTag::Earliest)),
            Ok(())
        );
    }
}
