use cosmos_sdk_proto::cosmos::base::v1beta1::Coin as CosmosSdkCoin;
use osmosis_std::types::cosmos::base::v1beta1::Coin as OsmosisStdCoin;
use osmosis_zapper::coin::NativeCoin;
use osmosis_zapper::proto_coin::ProtoCoin;

#[test]
fn test_from_proto_coin_to_cosmos_sdk_proto_coin() {
    let coin = ProtoCoin(NativeCoin {
        denom: "uatom".to_string(),
        amount: 100,
    });

    let cosmos_sdk_proto_coin: CosmosSdkCoin = coin.into();

    assert_eq!(cosmos_sdk_proto_coin.denom, "uatom");
    assert_eq!(cosmos_sdk_proto_coin.amount, "100");
}

#[test]
fn test_from_proto_coin_to_osmosis_std_coin() {
    let coin = ProtoCoin(NativeCoin {
        denom: "uatom".to_string(),
        amount: 100,
    });

    let osmosis_std_coin: OsmosisStdCoin = coin.into();

    assert_eq!(osmosis_std_coin.denom, "uatom");
    assert_eq!(osmosis_std_coin.amount, "100");
}
