use nagara_core::ledger::Ledger;
use nagara_core::pda_files::{
    Config, Error, Event, FeeFromBytes, FileInformation, FileInformationArgs, LinearFee, Pallet,
};
use nagara_core::primitives::{DispatchError, LedgerError, Origin};

type UploadFee = LinearFee<2>;
type DownloadFee = LinearFee<1>;
type StorageFee = LinearFee<3>;

const UPLOADER: u64 = 1;
const COUNCIL: u64 = 2;
const SERVICER: u64 = 3;
const DOWNLOADER: u64 = 4;
const BUYER: u64 = 5;
const FILE: u64 = 100;

fn config() -> Config {
    Config {
        storage_period: 600,
        servicer_upload_fee_distribution: 30,
        big_brother_download_fee_distribution: 25,
        royalty_fee_distribution: 10,
    }
}

fn args() -> FileInformationArgs {
    FileInformationArgs {
        hash: (7, 9),
        uploader: UPLOADER,
        big_brother: COUNCIL,
        servicer: SERVICER,
        transfer_fee: 50,
        size: 1_000,
        free_for_all: false,
    }
}

fn funded() -> Ledger {
    let mut ledger = Ledger::new();
    for who in [UPLOADER, DOWNLOADER, BUYER] {
        ledger.mint_into(who, 10_000).unwrap();
    }
    ledger
}

fn uploaded() -> (Pallet, Ledger) {
    let mut files = Pallet::new(config());
    let mut ledger = funded();
    files.servicer_upload::<UploadFee>(&mut ledger, Origin::Signed(SERVICER), FILE, args()).unwrap();
    (files, ledger)
}

fn files_error(error: Error) -> DispatchError {
    DispatchError::Files(error)
}

#[test]
fn linear_fee_is_rate_times_size() {
    assert_eq!(LinearFee::<2>::bytes_to_fee(1_000), 2_000);
    assert_eq!(LinearFee::<0>::bytes_to_fee(1_000), 0);
    assert_eq!(LinearFee::<3>::bytes_to_fee(0), 0);
    assert_eq!(
        LinearFee::<{ u64::MAX }>::bytes_to_fee(u64::MAX),
        u64::MAX as u128 * u64::MAX as u128
    );
}

#[test]
fn upload_registers_the_file_and_shares_the_fee() {
    let mut files = Pallet::new(config());
    let mut ledger = funded();
    assert_eq!(files.config(), config());
    assert_eq!(
        files.servicer_upload::<UploadFee>(&mut ledger, Origin::Signed(SERVICER), FILE, args()),
        Ok(vec![
            Event::FileUploaded { file: FILE, length: 1_000 },
            Event::UploadFeePaid { by: UPLOADER, amount: 2_000, file: FILE },
            Event::UploadFeeDistributed { to: COUNCIL, amount: 1_400, file: FILE },
            Event::UploadFeeDistributed { to: SERVICER, amount: 600, file: FILE },
        ])
    );
    assert_eq!(
        files.files(FILE),
        Some(FileInformation {
            hash: (7, 9),
            uploader: UPLOADER,
            big_brother: COUNCIL,
            servicer: SERVICER,
            owner: UPLOADER,
            transfer_fee: 50,
            size: 1_000,
            free_for_all: false,
        })
    );
    assert_eq!(files.hashes((7, 9)), Some(FILE));
    assert_eq!(files.hashes((7, 8)), None);
    assert_eq!(ledger.balance(UPLOADER), 8_000);
    assert_eq!(ledger.balance(COUNCIL), 1_400);
    assert_eq!(ledger.balance(SERVICER), 600);
}

#[test]
fn upload_is_refused_for_each_reason_and_changes_nothing() {
    let (mut files, mut ledger) = uploaded();
    assert_eq!(
        files.servicer_upload::<UploadFee>(&mut ledger, Origin::Unsigned, 101, args()),
        Err(DispatchError::BadOrigin)
    );
    assert_eq!(
        files.servicer_upload::<UploadFee>(&mut ledger, Origin::Root, FILE, args()),
        Err(files_error(Error::FileAlreadyExist))
    );
    assert_eq!(
        files.servicer_upload::<UploadFee>(&mut ledger, Origin::Root, 101, args()),
        Err(files_error(Error::FileAlreadyExist))
    );
    let free = FileInformationArgs { hash: (1, 1), transfer_fee: 0, ..args() };
    assert_eq!(
        files.servicer_upload::<UploadFee>(&mut ledger, Origin::Root, 101, free),
        Err(files_error(Error::OwnershipTransferFeeMustNotZero))
    );
    let poor = FileInformationArgs { hash: (1, 1), uploader: 77, ..args() };
    assert_eq!(
        files.servicer_upload::<UploadFee>(&mut ledger, Origin::Root, 101, poor),
        Err(DispatchError::Ledger(LedgerError::FundsUnavailable))
    );
    assert_eq!(files.files(101), None);
    assert_eq!(files.hashes((1, 1)), None);
    assert_eq!(ledger.balance(UPLOADER), 8_000);
    assert_eq!(ledger.balance(COUNCIL), 1_400);
    assert_eq!(ledger.balance(SERVICER), 600);
}

#[test]
fn download_charges_the_downloader_and_shares_the_fee() {
    let (files, mut ledger) = uploaded();
    assert_eq!(
        files.servicer_download::<DownloadFee>(&mut ledger, Origin::Root, FILE, DOWNLOADER),
        Ok(vec![
            Event::DownloadFeePaid { by: DOWNLOADER, amount: 1_000, file: FILE },
            Event::DownloadFeeDistributed { to: UPLOADER, amount: 750, file: FILE },
            Event::DownloadFeeDistributed { to: COUNCIL, amount: 125, file: FILE },
            Event::DownloadFeeDistributed { to: SERVICER, amount: 125, file: FILE },
        ])
    );
    assert_eq!(ledger.balance(DOWNLOADER), 9_000);
    assert_eq!(ledger.balance(UPLOADER), 8_750);
    assert_eq!(ledger.balance(COUNCIL), 1_525);
    assert_eq!(ledger.balance(SERVICER), 725);
}

#[test]
fn download_is_refused_without_file_funds_or_origin() {
    let (files, mut ledger) = uploaded();
    assert_eq!(
        files.servicer_download::<DownloadFee>(&mut ledger, Origin::Root, 555, DOWNLOADER),
        Err(files_error(Error::FileNotFound))
    );
    assert_eq!(
        files.servicer_download::<DownloadFee>(&mut ledger, Origin::Unsigned, FILE, DOWNLOADER),
        Err(DispatchError::BadOrigin)
    );
    assert_eq!(
        files.servicer_download::<DownloadFee>(&mut ledger, Origin::Root, FILE, 77),
        Err(DispatchError::Ledger(LedgerError::FundsUnavailable))
    );
    assert_eq!(ledger.balance(UPLOADER), 8_000);
    assert_eq!(ledger.balance(DOWNLOADER), 10_000);
}

#[test]
fn download_of_a_free_file_costs_nothing() {
    let mut files = Pallet::new(config());
    let mut ledger = funded();
    let free = FileInformationArgs { free_for_all: true, ..args() };
    files.upload_file::<UploadFee>(&mut ledger, FILE, free).unwrap();
    assert_eq!(
        files.servicer_download::<DownloadFee>(&mut ledger, Origin::Signed(9), FILE, 77),
        Ok(vec![])
    );
    assert_eq!(ledger.balance(77), 0);
    assert_eq!(ledger.balance(UPLOADER), 8_000);
}

#[test]
fn odd_council_part_is_halved_rounding_down() {
    let mut files = Pallet::new(Config { big_brother_download_fee_distribution: 33, ..config() });
    let mut ledger = funded();
    let small = FileInformationArgs { size: 10, ..args() };
    files.upload_file::<UploadFee>(&mut ledger, FILE, small).unwrap();
    let before = (ledger.balance(UPLOADER), ledger.balance(COUNCIL), ledger.balance(SERVICER));
    assert_eq!(
        files.download_file::<DownloadFee>(&mut ledger, FILE, DOWNLOADER),
        Ok(vec![
            Event::DownloadFeePaid { by: DOWNLOADER, amount: 10, file: FILE },
            Event::DownloadFeeDistributed { to: UPLOADER, amount: 7, file: FILE },
            Event::DownloadFeeDistributed { to: COUNCIL, amount: 1, file: FILE },
            Event::DownloadFeeDistributed { to: SERVICER, amount: 1, file: FILE },
        ])
    );
    assert_eq!(ledger.balance(UPLOADER), before.0 + 7);
    assert_eq!(ledger.balance(COUNCIL), before.1 + 1);
    assert_eq!(ledger.balance(SERVICER), before.2 + 1);
}

#[test]
fn round_trip_of_upload_download_and_purchase() {
    let (mut files, mut ledger) = uploaded();
    files.servicer_download::<DownloadFee>(&mut ledger, Origin::Root, FILE, DOWNLOADER).unwrap();
    assert_eq!(ledger.balance(UPLOADER), 8_750);
    assert_eq!(
        files.any_buy_file(&mut ledger, Origin::Signed(BUYER), FILE),
        Ok(vec![
            Event::OwnershipTransferFeePaid { by: BUYER, amount: 50, file: FILE },
            Event::OwnershipTransferFeeDistributed { to: UPLOADER, amount: 2, file: FILE },
            Event::OwnershipTransferFeeDistributed { to: COUNCIL, amount: 2, file: FILE },
            Event::OwnershipTransferFeeDistributed { to: UPLOADER, amount: 45, file: FILE },
            Event::FileOwnershipTransferred { from: UPLOADER, to: BUYER, file: FILE },
        ])
    );
    assert_eq!(files.files(FILE).unwrap().owner, BUYER);
    assert_eq!(files.files(FILE).unwrap().uploader, UPLOADER);
    assert_eq!(ledger.balance(BUYER), 9_950);
    assert_eq!(ledger.balance(UPLOADER), 8_797);
    assert_eq!(ledger.balance(COUNCIL), 1_527);
    let uploader_before = ledger.balance(UPLOADER);
    let buyer_before = ledger.balance(BUYER);
    files.servicer_download::<DownloadFee>(&mut ledger, Origin::Root, FILE, DOWNLOADER).unwrap();
    assert_eq!(ledger.balance(UPLOADER), uploader_before);
    assert_eq!(ledger.balance(BUYER), buyer_before + 750);
    assert_eq!(ledger.balance(DOWNLOADER), 8_000);
}

#[test]
fn purchase_is_refused_without_file_funds_or_signature() {
    let (mut files, mut ledger) = uploaded();
    assert_eq!(
        files.any_buy_file(&mut ledger, Origin::Signed(BUYER), 555),
        Err(files_error(Error::FileNotFound))
    );
    assert_eq!(
        files.any_buy_file(&mut ledger, Origin::Root, FILE),
        Err(DispatchError::BadOrigin)
    );
    assert_eq!(
        files.any_buy_file(&mut ledger, Origin::Signed(77), FILE),
        Err(DispatchError::Ledger(LedgerError::FundsUnavailable))
    );
    assert_eq!(files.files(FILE).unwrap().owner, UPLOADER);
    assert_eq!(ledger.balance(UPLOADER), 8_000);
}

#[test]
fn storage_fee_is_taken_from_the_file_account_and_halved() {
    let (mut files, mut ledger) = uploaded();
    ledger.mint_into(FILE, 3_001).unwrap();
    assert_eq!(
        files.servicer_take_storage_fee::<StorageFee>(&mut ledger, Origin::Root, FILE),
        Ok(vec![
            Event::StorageFeePaid { file: FILE, amount: 3_000 },
            Event::StorageFeeDistributed { file: FILE, to: COUNCIL, amount: 1_500 },
            Event::StorageFeeDistributed { file: FILE, to: SERVICER, amount: 1_500 },
        ])
    );
    assert_eq!(ledger.balance(FILE), 1);
    assert_eq!(ledger.balance(COUNCIL), 2_900);
    assert_eq!(ledger.balance(SERVICER), 2_100);
    assert!(files.files(FILE).is_some());
}

#[test]
fn insolvent_file_is_deleted_and_then_unknown() {
    let (mut files, mut ledger) = uploaded();
    ledger.mint_into(FILE, 2_999).unwrap();
    assert_eq!(
        files.servicer_take_storage_fee::<StorageFee>(&mut ledger, Origin::Signed(SERVICER), FILE),
        Ok(vec![Event::InsufficientAmountForKeepingFile { file: FILE }])
    );
    assert_eq!(ledger.balance(FILE), 2_999);
    assert_eq!(ledger.balance(COUNCIL), 1_400);
    assert_eq!(files.files(FILE), None);
    assert_eq!(files.hashes((7, 9)), None);
    assert_eq!(
        files.servicer_download::<DownloadFee>(&mut ledger, Origin::Root, FILE, DOWNLOADER),
        Err(files_error(Error::FileNotFound))
    );
    assert_eq!(
        files.any_buy_file(&mut ledger, Origin::Signed(BUYER), FILE),
        Err(files_error(Error::FileNotFound))
    );
    assert_eq!(
        files.servicer_take_storage_fee::<StorageFee>(&mut ledger, Origin::Root, FILE),
        Err(files_error(Error::FileNotFound))
    );
    assert_eq!(
        files.servicer_take_storage_fee::<StorageFee>(&mut ledger, Origin::Unsigned, FILE),
        Err(DispatchError::BadOrigin)
    );
    files.servicer_upload::<UploadFee>(&mut ledger, Origin::Root, 101, args()).unwrap();
    assert_eq!(files.hashes((7, 9)), Some(101));
}

#[test]
fn delete_file_removes_file_and_hash() {
    let (mut files, _) = uploaded();
    assert_eq!(files.delete_file(555), Err(files_error(Error::FileNotFound)));
    assert_eq!(
        files.delete_file(FILE),
        Ok(vec![Event::InsufficientAmountForKeepingFile { file: FILE }])
    );
    assert_eq!(files.files(FILE), None);
    assert_eq!(files.hashes((7, 9)), None);
}

#[test]
fn every_split_adds_up_to_the_fee() {
    for percent in [0u8, 1, 10, 33, 50, 99, 100] {
        let cfg = Config {
            storage_period: 1,
            servicer_upload_fee_distribution: percent,
            big_brother_download_fee_distribution: percent,
            royalty_fee_distribution: percent,
        };
        for size in [1u64, 7, 999, 1_000, 9_999] {
            let mut files = Pallet::new(cfg);
            let mut ledger = funded();
            let events = files
                .upload_file::<LinearFee<1>>(
                    &mut ledger,
                    FILE,
                    FileInformationArgs { size, transfer_fee: size as u128, ..args() },
                )
                .unwrap();
            let mut paid = 0u128;
            let mut shared = 0u128;
            for event in events {
                match event {
                    Event::UploadFeePaid { amount, .. } => paid += amount,
                    Event::UploadFeeDistributed { amount, .. } => shared += amount,
                    _ => {},
                }
            }
            assert_eq!(paid, size as u128);
            assert_eq!(shared, paid);
        }
    }
}
