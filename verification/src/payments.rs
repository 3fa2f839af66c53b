//! The amounts of an order, and the payment data that is kept for the vault
//! while a payment is processed.

use vstd::prelude::*;
use crate::amount::MinorUnit;
use crate::enums::Currency;
use crate::payment_method_data::{Card, NetworkTokenData, PaymentMethodData};

verus! {

/// The amounts of an order.
#[derive(Clone, Copy, Debug, PartialEq, Eq, Structural)]
pub struct AmountDetails {
    /// The amount of the order.
    pub order_amount: MinorUnit,
    /// The currency of the order.
    pub currency: Currency,
    /// What shipping costs.
    pub shipping_cost: Option<MinorUnit>,
    /// The surcharge that is added to the order.
    pub surcharge_amount: Option<MinorUnit>,
    /// The tax on the surcharge.
    pub tax_on_surcharge: Option<MinorUnit>,
    /// What has been captured of the order so far.
    pub amount_captured: Option<MinorUnit>,
}

/// An amount that may be absent counts as nothing.
pub open spec fn amount_or_zero(amount: Option<MinorUnit>) -> int {
    match amount {
        Some(m) => m@,
        None => 0,
    }
}

impl AmountDetails {
    /// The net amount of the order: the order itself, shipping, the
    /// surcharge and the tax on the surcharge.
    pub open spec fn net_amount(&self) -> int {
        self.order_amount@ + amount_or_zero(self.shipping_cost) + amount_or_zero(
            self.surcharge_amount,
        ) + amount_or_zero(self.tax_on_surcharge)
    }

    /// Calculates the net amount of the order, which has to fit 64 bits.
    pub fn calculate_net_amount(&self) -> (r: MinorUnit)
        requires
            i64::MIN <= self.net_amount() <= i64::MAX,
        ensures
            r@ == self.net_amount(),
    {
        let shipping: i64 = match self.shipping_cost {
            Some(m) => m.get_amount_as_i64(),
            None => 0,
        };
        let surcharge: i64 = match self.surcharge_amount {
            Some(m) => m.get_amount_as_i64(),
            None => 0,
        };
        let tax: i64 = match self.tax_on_surcharge {
            Some(m) => m.get_amount_as_i64(),
            None => 0,
        };
        let sum: i128 = self.order_amount.get_amount_as_i64() as i128 + shipping as i128
            + surcharge as i128 + tax as i128;
        MinorUnit::new(sum as i64)
    }
}

/// What Click to Pay needs to know about the merchant.
#[derive(Clone, Debug, PartialEq, Eq)]
pub struct ClickToPayMetaData {
    pub dpa_id: String,
    pub dpa_name: String,
    pub locale: String,
    pub card_brands: Vec<String>,
    pub acquirer_bin: String,
    pub acquirer_merchant_id: String,
    pub merchant_category_code: String,
    pub merchant_country_code: String,
    pub dpa_client_id: Option<String>,
}

/// A network token to be stored, with the reference of the request that made it.
#[derive(PartialEq, Eq)]
pub struct NetworkTokenDataForVault {
    pub network_token_data: NetworkTokenData,
    pub network_token_req_ref_id: String,
}

/// A card and its network token, to be stored together.
#[derive(PartialEq, Eq)]
pub struct CardAndNetworkTokenDataForVault {
    pub card_data: Card,
    pub network_token: NetworkTokenDataForVault,
}

/// A card to be stored.
#[derive(PartialEq, Eq)]
pub struct CardDataForVault {
    pub card_data: Card,
    pub network_token_req_ref_id: Option<String>,
}

/// A card together with the network token that stands for it.
#[derive(PartialEq, Eq)]
pub struct CardAndNetworkTokenData {
    pub card_data: Card,
    pub network_token_data: NetworkTokenData,
}

impl Clone for CardAndNetworkTokenData {
    fn clone(&self) -> (r: Self)
        ensures
            r == *self,
    {
        CardAndNetworkTokenData {
            card_data: self.card_data.clone(),
            network_token_data: self.network_token_data.clone(),
        }
    }
}

/// What the vault holds of a payment method.
#[derive(PartialEq, Eq)]
pub enum VaultData {
    Card(Card),
    NetworkToken(NetworkTokenData),
    CardAndNetworkToken(Box<CardAndNetworkTokenData>),
}

impl VaultData {
    /// The card that the vault holds.
    pub open spec fn card_vault_data(&self) -> Option<Card> {
        match self {
            VaultData::Card(card_data) => Some(*card_data),
            VaultData::NetworkToken(_) => None,
            VaultData::CardAndNetworkToken(vault_data) => Some(vault_data.card_data),
        }
    }

    /// The network token that the vault holds.
    pub open spec fn network_token_data(&self) -> Option<NetworkTokenData> {
        match self {
            VaultData::Card(_) => None,
            VaultData::NetworkToken(network_token_data) => Some(*network_token_data),
            VaultData::CardAndNetworkToken(vault_data) => Some(vault_data.network_token_data),
        }
    }

    /// The card that the vault holds, if it holds one.
    pub fn get_card_vault_data(&self) -> (r: Option<Card>)
        ensures
            r == self.card_vault_data(),
    {
        match self {
            VaultData::Card(card_data) => Some(card_data.clone()),
            VaultData::NetworkToken(_network_token_data) => None,
            VaultData::CardAndNetworkToken(vault_data) => Some(vault_data.card_data.clone()),
        }
    }

    /// The network token that the vault holds, if it holds one.
    pub fn get_network_token_data(&self) -> (r: Option<NetworkTokenData>)
        ensures
            r == self.network_token_data(),
    {
        match self {
            VaultData::Card(_card_data) => None,
            VaultData::NetworkToken(network_token_data) => Some(network_token_data.clone()),
            VaultData::CardAndNetworkToken(vault_data) => Some(
                vault_data.network_token_data.clone(),
            ),
        }
    }
}

impl Clone for VaultData {
    fn clone(&self) -> (r: Self)
        ensures
            r == *self,
    {
        match self {
            VaultData::Card(card) => VaultData::Card(card.clone()),
            VaultData::NetworkToken(token) => VaultData::NetworkToken(token.clone()),
            VaultData::CardAndNetworkToken(both) => {
                let copy: CardAndNetworkTokenData = (**both).clone();
                VaultData::CardAndNetworkToken(Box::new(copy))
            },
        }
    }
}

/// What is to be done in the vault for a payment.
#[derive(PartialEq, Eq)]
pub enum VaultOperation {
    ExistingVaultData(VaultData),
    SaveCardData(CardDataForVault),
    SaveCardAndNetworkTokenData(Box<CardAndNetworkTokenDataForVault>),
}

/// The vault data after a payment method has been seen. The first card or
/// network token is kept as it is. A network token that follows a card, or a
/// card that follows a network token, is joined with it. Anything else leaves
/// existing vault data as they are. Without vault data, a payment method that
/// is neither a card nor a network token gives none, and so does an operation
/// that stores new data.
pub open spec fn updated_vault_data(
    existing_vault_data: Option<VaultOperation>,
    payment_method_data: PaymentMethodData,
) -> Option<VaultOperation> {
    match (existing_vault_data, payment_method_data) {
        (None, PaymentMethodData::Card(card)) => Some(
            VaultOperation::ExistingVaultData(VaultData::Card(card)),
        ),
        (None, PaymentMethodData::NetworkToken(nt_data)) => Some(
            VaultOperation::ExistingVaultData(VaultData::NetworkToken(nt_data)),
        ),
        (Some(VaultOperation::ExistingVaultData(vault_data)), payment_method_data) => match (
            vault_data,
            payment_method_data,
        ) {
            (VaultData::Card(card), PaymentMethodData::NetworkToken(nt_data)) => Some(
                VaultOperation::ExistingVaultData(
                    VaultData::CardAndNetworkToken(
                        Box::new(
                            CardAndNetworkTokenData { card_data: card, network_token_data: nt_data },
                        ),
                    ),
                ),
            ),
            (VaultData::NetworkToken(nt_data), PaymentMethodData::Card(card)) => Some(
                VaultOperation::ExistingVaultData(
                    VaultData::CardAndNetworkToken(
                        Box::new(
                            CardAndNetworkTokenData { card_data: card, network_token_data: nt_data },
                        ),
                    ),
                ),
            ),
            _ => Some(VaultOperation::ExistingVaultData(vault_data)),
        },
        _ => None,
    }
}

impl VaultOperation {
    /// The vault data after `payment_method_data` has been seen.
    pub fn get_updated_vault_data(
        existing_vault_data: Option<&Self>,
        payment_method_data: &PaymentMethodData,
    ) -> (r: Option<Self>)
        ensures
            r == updated_vault_data(
                match existing_vault_data {
                    Some(operation) => Some(*operation),
                    None => None,
                },
                *payment_method_data,
            ),
    {
        match (existing_vault_data, payment_method_data) {
            (None, PaymentMethodData::Card(card)) => Some(
                VaultOperation::ExistingVaultData(VaultData::Card(card.clone())),
            ),
            (None, PaymentMethodData::NetworkToken(nt_data)) => Some(
                VaultOperation::ExistingVaultData(VaultData::NetworkToken(nt_data.clone())),
            ),
            (Some(VaultOperation::ExistingVaultData(vault_data)), payment_method_data) => {
                match (vault_data, payment_method_data) {
                    (VaultData::Card(card), PaymentMethodData::NetworkToken(nt_data)) => Some(
                        VaultOperation::ExistingVaultData(
                            VaultData::CardAndNetworkToken(
                                Box::new(
                                    CardAndNetworkTokenData {
                                        card_data: card.clone(),
                                        network_token_data: nt_data.clone(),
                                    },
                                ),
                            ),
                        ),
                    ),
                    (VaultData::NetworkToken(nt_data), PaymentMethodData::Card(card)) => Some(
                        VaultOperation::ExistingVaultData(
                            VaultData::CardAndNetworkToken(
                                Box::new(
                                    CardAndNetworkTokenData {
                                        card_data: card.clone(),
                                        network_token_data: nt_data.clone(),
                                    },
                                ),
                            ),
                        ),
                    ),
                    _ => Some(VaultOperation::ExistingVaultData(vault_data.clone())),
                }
            },
            //payment_method_data is not card or network token
            _ => None,
        }
    }
}

/// Vault data never lose what they hold: after an update, the card and the
/// network token that were there are still there.
pub proof fn lemma_vault_update_keeps_data(
    vault_data: VaultData,
    payment_method_data: PaymentMethodData,
)
    ensures
        updated_vault_data(
            Some(VaultOperation::ExistingVaultData(vault_data)),
            payment_method_data,
        ) matches Some(VaultOperation::ExistingVaultData(after)) && {
            &&& vault_data.card_vault_data() is Some ==> after.card_vault_data()
                == vault_data.card_vault_data()
            &&& vault_data.network_token_data() is Some ==> after.network_token_data()
                == vault_data.network_token_data()
        },
{
}

} // verus!
