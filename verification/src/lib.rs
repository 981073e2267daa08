//! Buy-now-pay-later equipment financing: inventory accounting across
//! vendor-owned and funder-owned units, installment contracts backed by a
//! release-once escrow, payment processing with calendar-aware due dates,
//! and a borrower credit score tied to payment timeliness.
//!
//! The library is the pure core of the system: every operation is a function
//! over a snapshot of the records it touches, returning the updated records
//! and at most one value-transfer request for the host to execute.  Token
//! transfers, clock reads, asset minting and account storage are external
//! collaborators supplied by the host.

mod borrower;
mod calendar;
mod contract;
mod credit_score;
mod delivery;
mod equipment;
mod errors;
mod escrow;
mod funded;
mod funding;
mod ids;
mod listing;
mod marketplace;
mod origination;
mod payment;
mod queries;
mod validation;
mod vendor;

pub use borrower::Borrower;
pub use borrower::initialize_borrower;
pub use calendar::civil_date_valid;
pub use calendar::civil_of_timestamp;
pub use calendar::keep_same_day_for_payment;
pub use calendar::monthly_due_date;
pub use calendar::next_month_of;
pub use calendar::next_year_of;
pub use calendar::timestamp_of_civil;
pub use contract::BNPLContract;
pub use contract::ContractStatus;
pub use contract::InstallmentFrequency;
pub use contract::lemma_paid_within_due;
pub use credit_score::CREDIT_POINT_SCALE;
pub use credit_score::CreditScore;
pub use credit_score::scaled_credit_points;
pub use credit_score::spec_scaled_credit_points;
pub use credit_score::track_repayment;
pub use credit_score::view_credit_score;
pub use delivery::confirm_delivery;
pub use delivery::confirm_funded_delivery;
pub use delivery::lemma_funded_release_once;
pub use delivery::lemma_release_once;
pub use delivery::spec_confirm_delivery_error;
pub use delivery::spec_confirm_funded_delivery_error;
pub use delivery::spec_expected_funded_payee;
pub use equipment::DeliveryStatus;
pub use equipment::Equipment;
pub use equipment::EquipmentStatus;
pub use equipment::FunderInfo;
pub use equipment::PaymentPreference;
pub use equipment::escrow_offer_exists;
pub use equipment::first_escrow_offer;
pub use equipment::first_matching_offer;
pub use equipment::first_offer_by;
pub use equipment::is_first_escrow_offer;
pub use equipment::is_first_matching_offer;
pub use equipment::is_first_offer_by;
pub use equipment::lemma_no_double_spend;
pub use equipment::matching_offer_exists;
pub use equipment::offer_by;
pub use equipment::offer_by_exists;
pub use equipment::offer_for_escrow;
pub use equipment::offer_matches;
pub use equipment::status_after_sale;
pub use equipment::unchanged_except_funding;
pub use errors::ErrorCode;
pub use escrow::Escrow;
pub use funded::FunderEquipmentInfo;
pub use funded::FunderEquipmentResponse;
pub use funding::FundingOutcome;
pub use funding::fund_equipment;
pub use funding::fund_equipment_for_borrower_no_payment;
pub use funding::fund_equipment_for_borrower_with_payment;
pub use funding::fund_equipment_for_listing;
pub use funding::funding_open;
pub use funding::spec_fund_equipment_error;
pub use funding::spec_fund_reservation_error;
pub use funding::uncommitted_capacity;
pub use ids::AccountId;
pub use ids::TransferRequest;
pub use listing::spec_update_equipment_error;
pub use listing::spec_upload_equipment_error;
pub use listing::update_equipment;
pub use listing::upload_equipment;
pub use marketplace::Marketplace;
pub use marketplace::create_marketplace;
pub use origination::ContractCreation;
pub use origination::create_contract;
pub use origination::lemma_deposit_below_minimum_rejected;
pub use origination::spec_create_contract_error;
pub use origination::spec_equipment_after_reserve;
pub use origination::spec_resolved_terms;
pub use payment::get_contract_status;
pub use payment::is_payment_on_time;
pub use payment::lemma_overpayment_rejected;
pub use payment::make_payment;
pub use payment::payee_valid;
pub use payment::spec_advanced_due_date;
pub use payment::spec_make_payment_error;
pub use payment::spec_progress;
pub use queries::get_all_vendor_equipment;
pub use queries::get_equipment;
pub use queries::get_funded_equipment;
pub use queries::spec_equipment_info;
pub use queries::spec_funder_directory;
pub use queries::spec_funder_info;
pub use queries::spec_vendor_directory;
pub use validation::byte_len;
pub use validation::spec_byte_len;
pub use validation::validate_duration;
pub use validation::validate_insurance_premium;
pub use validation::validate_installment_frequency;
pub use validation::validate_name;
pub use validation::validate_price;
pub use validation::validate_string_length;
pub use validation::validate_uri;
pub use vendor::EquipmentInfo;
pub use vendor::Vendor;
pub use vendor::VendorEquipmentResponse;
pub use vendor::VendorStatus;
pub use vendor::create_vendor;
