//! The file marketplace: files registered under a unique identifier and a
//! unique content hash, with upload, download and storage fees shared
//! between the owner, the council representative and the servicer, and
//! ownership that can be bought.

use vstd::prelude::*;
use std::collections::BTreeMap;
use crate::ledger::{debited, deposited, Book, Ledger};
use crate::primitives::{
    ensure_signed,
    ensure_signed_or_root,
    AccountId,
    Balance,
    BlockNumber,
    DispatchError,
    Key256,
    Origin,
};
use crate::shares::{half_of, percent_of, split_by_percent, Percent};

verus! {

/// The content hash of a file.
pub type FileHash = Key256;

/// A fee that depends on a size in bytes and never decreases as the size
/// grows.
pub trait FeeFromBytes {
    /// The fee for `size` bytes.
    spec fn fee(size: u64) -> Balance;

    /// A larger size never costs less.
    proof fn lemma_fee_is_monotonic(smaller: u64, larger: u64)
        requires
            smaller <= larger,
        ensures
            Self::fee(smaller) <= Self::fee(larger),
    ;

    /// Calculates the fee from the byte size.
    fn bytes_to_fee(size: u64) -> (fee: Balance)
        ensures
            fee == Self::fee(size),
    ;
}

/// A fee of `PER_BYTE` base units for every byte.
pub struct LinearFee<const PER_BYTE: u64>;

impl<const PER_BYTE: u64> FeeFromBytes for LinearFee<PER_BYTE> {
    open spec fn fee(size: u64) -> Balance {
        (size * PER_BYTE) as Balance
    }

    proof fn lemma_fee_is_monotonic(smaller: u64, larger: u64) {
        assert(smaller * PER_BYTE <= larger * PER_BYTE) by (nonlinear_arith)
            requires
                smaller <= larger,
                0 <= PER_BYTE,
        ;
        assert(larger * PER_BYTE <= u64::MAX * u64::MAX) by (nonlinear_arith)
            requires
                0 <= larger <= u64::MAX,
                0 <= PER_BYTE <= u64::MAX,
        ;
    }

    fn bytes_to_fee(size: u64) -> (fee: Balance) {
        assert(size * PER_BYTE <= u64::MAX * u64::MAX) by (nonlinear_arith)
            requires
                0 <= size <= u64::MAX,
                0 <= PER_BYTE <= u64::MAX,
        ;
        size as Balance * PER_BYTE as Balance
    }
}

/// What the marketplace records about a file.
#[derive(Clone, Copy, Debug, PartialEq, Eq)]
pub struct FileInformation {
    pub hash: FileHash,
    pub uploader: AccountId,
    pub big_brother: AccountId,
    pub servicer: AccountId,
    pub owner: AccountId,
    pub transfer_fee: Balance,
    pub size: u64,
    pub free_for_all: bool,
}

/// What an upload states about the new file.
#[derive(Clone, Copy, Debug, PartialEq, Eq)]
pub struct FileInformationArgs {
    pub hash: FileHash,
    pub uploader: AccountId,
    pub big_brother: AccountId,
    pub servicer: AccountId,
    pub transfer_fee: Balance,
    pub size: u64,
    pub free_for_all: bool,
}

/// The marketplace's own errors.
#[derive(Clone, Copy, Debug, PartialEq, Eq)]
pub enum Error {
    /// The module's bookkeeping is inconsistent.
    FatalError,
    /// No file is registered under the identifier.
    FileNotFound,
    /// The identifier or the hash is already registered.
    FileAlreadyExist,
    /// The ownership transfer fee of a file must be greater than zero.
    OwnershipTransferFeeMustNotZero,
}

/// What the marketplace reports to observers.
#[derive(Clone, Copy, Debug, PartialEq, Eq)]
pub enum Event {
    FileUploaded { file: AccountId, length: u64 },
    UploadFeePaid { by: AccountId, amount: Balance, file: AccountId },
    UploadFeeDistributed { to: AccountId, amount: Balance, file: AccountId },
    DownloadFeePaid { by: AccountId, amount: Balance, file: AccountId },
    DownloadFeeDistributed { to: AccountId, amount: Balance, file: AccountId },
    OwnershipTransferFeePaid { by: AccountId, amount: Balance, file: AccountId },
    OwnershipTransferFeeDistributed { to: AccountId, amount: Balance, file: AccountId },
    FileOwnershipTransferred { from: AccountId, to: AccountId, file: AccountId },
    /// The file's account could not pay for its storage; the file is gone.
    InsufficientAmountForKeepingFile { file: AccountId },
    StorageFeePaid { file: AccountId, amount: Balance },
    StorageFeeDistributed { file: AccountId, to: AccountId, amount: Balance },
}

/// The marketplace's parameters.
#[derive(Clone, Copy, Debug, PartialEq, Eq)]
pub struct Config {
    /// Number of blocks a storage fee pays for.
    pub storage_period: BlockNumber,
    /// The servicer's part of an upload fee.
    pub servicer_upload_fee_distribution: Percent,
    /// The part of a download fee that the council representative and the
    /// servicer share.
    pub big_brother_download_fee_distribution: Percent,
    /// The part of an ownership transfer fee that the uploader and the
    /// council representative share.
    pub royalty_fee_distribution: Percent,
}

/// The mathematical model of the marketplace.
#[verifier::ext_equal]
pub struct FilesState {
    pub config: Config,
    /// The registered files by identifier.
    pub files: Map<AccountId, FileInformation>,
    /// The identifier registered for each content hash.
    pub hashes: Map<FileHash, AccountId>,
}

/// The file that an upload with `args` registers: the uploader owns it.
pub open spec fn file_from_args(args: FileInformationArgs) -> FileInformation {
    FileInformation {
        hash: args.hash,
        uploader: args.uploader,
        big_brother: args.big_brother,
        servicer: args.servicer,
        owner: args.uploader,
        transfer_fee: args.transfer_fee,
        size: args.size,
        free_for_all: args.free_for_all,
    }
}

impl FilesState {
    /// The hash index and the files agree: every file is indexed under its
    /// hash, and every indexed hash is that of the file it leads to.
    pub open spec fn index_is_exact(self) -> bool {
        &&& forall|file: AccountId| #[trigger]
            self.files.contains_key(file) ==> self.hashes.contains_key(self.files[file].hash)
                && self.hashes[self.files[file].hash] == file
        &&& forall|hash: FileHash| #[trigger]
            self.hashes.contains_key(hash) ==> self.files.contains_key(self.hashes[hash])
                && self.files[self.hashes[hash]].hash == hash
    }

    /// Why an upload is refused before any fee is taken, if it is.
    pub open spec fn upload_conflict(self, file: AccountId, args: FileInformationArgs) -> Option<
        Error,
    > {
        if self.files.contains_key(file) || self.hashes.contains_key(args.hash) {
            Some(Error::FileAlreadyExist)
        } else if args.transfer_fee == 0 {
            Some(Error::OwnershipTransferFeeMustNotZero)
        } else {
            None
        }
    }

    /// Why an upload is refused, if it is: a conflict with the registered
    /// files, or an uploader who cannot pay `total_fee`.
    pub open spec fn upload_refusal(
        self,
        book: Book,
        file: AccountId,
        args: FileInformationArgs,
        total_fee: Balance,
    ) -> Option<DispatchError> {
        match self.upload_conflict(file, args) {
            Some(error) => Some(DispatchError::Files(error)),
            None => pay_refusal(book, args.uploader, total_fee),
        }
    }

    /// The marketplace after `file` was registered with `args`.
    pub open spec fn uploaded(self, file: AccountId, args: FileInformationArgs) -> FilesState {
        FilesState {
            files: self.files.insert(file, file_from_args(args)),
            hashes: self.hashes.insert(args.hash, file),
            ..self
        }
    }

    /// The marketplace after `file` was deleted.
    pub open spec fn deleted(self, file: AccountId) -> FilesState {
        FilesState {
            files: self.files.remove(file),
            hashes: self.hashes.remove(self.files[file].hash),
            ..self
        }
    }

    /// The marketplace after `file` passed to `new_owner`.
    pub open spec fn transferred(self, file: AccountId, new_owner: AccountId) -> FilesState {
        FilesState {
            files: self.files.insert(
                file,
                FileInformation { owner: new_owner, ..self.files[file] },
            ),
            ..self
        }
    }
}

/// Why `payer` cannot pay `amount`, if it cannot.
pub open spec fn pay_refusal(book: Book, payer: AccountId, amount: Balance) -> Option<
    DispatchError,
> {
    if book[payer].free < amount {
        Some(DispatchError::Ledger(crate::primitives::LedgerError::FundsUnavailable))
    } else {
        None
    }
}

/// The servicer's share of an upload fee.
pub open spec fn upload_servicer_share(config: Config, total_fee: Balance) -> Balance {
    percent_of(config.servicer_upload_fee_distribution, total_fee) as Balance
}

/// The book after an upload fee was paid and shared: the uploader pays
/// `total_fee`, the servicer receives its percentage of it and the council
/// representative the remainder.
pub open spec fn upload_settlement(
    book: Book,
    config: Config,
    args: FileInformationArgs,
    total_fee: Balance,
) -> Book {
    let servicer_share = upload_servicer_share(config, total_fee);
    let council_share = (total_fee - servicer_share) as Balance;
    deposited(
        deposited(debited(book, args.uploader, total_fee), args.big_brother, council_share),
        args.servicer,
        servicer_share,
    )
}

/// The events of a successful upload, in order.
pub open spec fn upload_events(
    config: Config,
    file: AccountId,
    args: FileInformationArgs,
    total_fee: Balance,
) -> Seq<Event> {
    let servicer_share = upload_servicer_share(config, total_fee);
    let council_share = (total_fee - servicer_share) as Balance;
    seq![
        Event::FileUploaded { file, length: args.size },
        Event::UploadFeePaid { by: args.uploader, amount: total_fee, file },
        Event::UploadFeeDistributed { to: args.big_brother, amount: council_share, file },
        Event::UploadFeeDistributed { to: args.servicer, amount: servicer_share, file },
    ]
}

/// The part of a download fee that the council representative and the
/// servicer share.
pub open spec fn download_council_part(config: Config, total_fee: Balance) -> Balance {
    percent_of(config.big_brother_download_fee_distribution, total_fee) as Balance
}

/// The book after a download fee was paid and shared: the downloader pays
/// `total_fee`; the council part is halved between the representative and
/// the servicer, and the owner receives the remainder of the fee.
pub open spec fn download_settlement(
    book: Book,
    config: Config,
    info: FileInformation,
    downloader: AccountId,
    total_fee: Balance,
) -> Book {
    let council_part = download_council_part(config, total_fee);
    let owner_share = (total_fee - council_part) as Balance;
    let half = council_part / 2;
    deposited(
        deposited(
            deposited(debited(book, downloader, total_fee), info.owner, owner_share),
            info.big_brother,
            half,
        ),
        info.servicer,
        half,
    )
}

/// The events of a paid download, in order.
pub open spec fn download_events(
    config: Config,
    file: AccountId,
    info: FileInformation,
    downloader: AccountId,
    total_fee: Balance,
) -> Seq<Event> {
    let council_part = download_council_part(config, total_fee);
    let owner_share = (total_fee - council_part) as Balance;
    let half = council_part / 2;
    seq![
        Event::DownloadFeePaid { by: downloader, amount: total_fee, file },
        Event::DownloadFeeDistributed { to: info.owner, amount: owner_share, file },
        Event::DownloadFeeDistributed { to: info.big_brother, amount: half, file },
        Event::DownloadFeeDistributed { to: info.servicer, amount: half, file },
    ]
}

/// The book after a storage fee was paid and shared: the file's own
/// account pays `total_fee`, and the council representative and the
/// servicer receive half of it each.
pub open spec fn storage_settlement(
    book: Book,
    file: AccountId,
    info: FileInformation,
    total_fee: Balance,
) -> Book {
    let half = total_fee / 2;
    deposited(deposited(debited(book, file, total_fee), info.big_brother, half), info.servicer, half)
}

/// The events of a paid storage fee, in order.
pub open spec fn storage_events(file: AccountId, info: FileInformation, total_fee: Balance) -> Seq<
    Event,
> {
    let half = total_fee / 2;
    seq![
        Event::StorageFeePaid { file, amount: total_fee },
        Event::StorageFeeDistributed { file, to: info.big_brother, amount: half },
        Event::StorageFeeDistributed { file, to: info.servicer, amount: half },
    ]
}

/// The royalty part of an ownership transfer fee.
pub open spec fn royalty_part(config: Config, transfer_fee: Balance) -> Balance {
    percent_of(config.royalty_fee_distribution, transfer_fee) as Balance
}

/// The book after an ownership transfer fee was paid and shared: the buyer
/// pays the file's transfer fee; the royalty is halved between the uploader
/// and the council representative, and the previous owner receives the
/// remainder of the fee.
pub open spec fn transfer_settlement(
    book: Book,
    config: Config,
    info: FileInformation,
    buyer: AccountId,
) -> Book {
    let royalty = royalty_part(config, info.transfer_fee);
    let owner_share = (info.transfer_fee - royalty) as Balance;
    let half = royalty / 2;
    deposited(
        deposited(
            deposited(debited(book, buyer, info.transfer_fee), info.uploader, half),
            info.big_brother,
            half,
        ),
        info.owner,
        owner_share,
    )
}

/// The events of a purchase, in order.
pub open spec fn transfer_events(
    config: Config,
    file: AccountId,
    info: FileInformation,
    buyer: AccountId,
) -> Seq<Event> {
    let royalty = royalty_part(config, info.transfer_fee);
    let owner_share = (info.transfer_fee - royalty) as Balance;
    let half = royalty / 2;
    seq![
        Event::OwnershipTransferFeePaid { by: buyer, amount: info.transfer_fee, file },
        Event::OwnershipTransferFeeDistributed { to: info.uploader, amount: half, file },
        Event::OwnershipTransferFeeDistributed { to: info.big_brother, amount: half, file },
        Event::OwnershipTransferFeeDistributed { to: info.owner, amount: owner_share, file },
        Event::FileOwnershipTransferred { from: info.owner, to: buyer, file },
    ]
}

impl FilesState {
    /// Why a purchase of `file` by `buyer` is refused, if it is.
    pub open spec fn transfer_refusal(self, book: Book, file: AccountId, buyer: AccountId) -> Option<
        DispatchError,
    > {
        if !self.files.contains_key(file) {
            Some(DispatchError::Files(Error::FileNotFound))
        } else {
            pay_refusal(book, buyer, self.files[file].transfer_fee)
        }
    }

    /// What an upload of `file` with `args` at the fee `total_fee` does to
    /// this marketplace and to `book`: a refused upload returns its error
    /// and changes nothing; an accepted one registers the file, settles the
    /// fee and returns its events.
    pub open spec fn upload_outcome(
        self,
        book: Book,
        file: AccountId,
        args: FileInformationArgs,
        total_fee: Balance,
        after: FilesState,
        book_after: Book,
        res: Result<Vec<Event>, DispatchError>,
    ) -> bool {
        match self.upload_refusal(book, file, args, total_fee) {
            Some(error) => {
                &&& res == Err::<Vec<Event>, DispatchError>(error)
                &&& after == self
                &&& book_after == book
            },
            None => {
                &&& res is Ok
                &&& res->Ok_0@ == upload_events(self.config, file, args, total_fee)
                &&& after == self.uploaded(file, args)
                &&& book_after == upload_settlement(book, self.config, args, total_fee)
            },
        }
    }

    /// What a download of `file` by `downloader` at the fee `total_fee`
    /// does to `book`: an unknown file and a downloader who cannot pay are
    /// refused and change nothing; a file that is free for all costs
    /// nothing and reports nothing; any other download settles the fee and
    /// returns its events.
    pub open spec fn download_outcome(
        self,
        book: Book,
        file: AccountId,
        downloader: AccountId,
        total_fee: Balance,
        book_after: Book,
        res: Result<Vec<Event>, DispatchError>,
    ) -> bool {
        let info = self.files[file];
        if !self.files.contains_key(file) {
            &&& res == Err::<Vec<Event>, DispatchError>(DispatchError::Files(Error::FileNotFound))
            &&& book_after == book
        } else if info.free_for_all {
            &&& res is Ok
            &&& res->Ok_0@ == Seq::<Event>::empty()
            &&& book_after == book
        } else {
            match pay_refusal(book, downloader, total_fee) {
                Some(error) => {
                    &&& res == Err::<Vec<Event>, DispatchError>(error)
                    &&& book_after == book
                },
                None => {
                    &&& res is Ok
                    &&& res->Ok_0@ == download_events(self.config, file, info, downloader, total_fee)
                    &&& book_after == download_settlement(
                        book,
                        self.config,
                        info,
                        downloader,
                        total_fee,
                    )
                },
            }
        }
    }

    /// What collecting the storage fee `total_fee` of `file` does to this
    /// marketplace and to `book`: an unknown file is refused and changes
    /// nothing; a file whose own account cannot pay is deleted, with the
    /// book untouched; any other file pays, the fee is settled and the
    /// marketplace stays as it was.
    pub open spec fn storage_fee_outcome(
        self,
        book: Book,
        file: AccountId,
        total_fee: Balance,
        after: FilesState,
        book_after: Book,
        res: Result<Vec<Event>, DispatchError>,
    ) -> bool {
        let info = self.files[file];
        if !self.files.contains_key(file) {
            &&& res == Err::<Vec<Event>, DispatchError>(DispatchError::Files(Error::FileNotFound))
            &&& after == self
            &&& book_after == book
        } else if book[file].free < total_fee {
            &&& res is Ok
            &&& res->Ok_0@ == seq![Event::InsufficientAmountForKeepingFile { file }]
            &&& after == self.deleted(file)
            &&& book_after == book
        } else {
            &&& res is Ok
            &&& res->Ok_0@ == storage_events(file, info, total_fee)
            &&& after == self
            &&& book_after == storage_settlement(book, file, info, total_fee)
        }
    }

    /// What a purchase of `file` by `buyer` does to this marketplace and
    /// to `book`: a refused purchase returns its error and changes
    /// nothing; an accepted one settles the transfer fee, makes the buyer
    /// the owner and returns its events.
    pub open spec fn transfer_outcome(
        self,
        book: Book,
        file: AccountId,
        buyer: AccountId,
        after: FilesState,
        book_after: Book,
        res: Result<Vec<Event>, DispatchError>,
    ) -> bool {
        match self.transfer_refusal(book, file, buyer) {
            Some(error) => {
                &&& res == Err::<Vec<Event>, DispatchError>(error)
                &&& after == self
                &&& book_after == book
            },
            None => {
                let info = self.files[file];
                &&& res is Ok
                &&& res->Ok_0@ == transfer_events(self.config, file, info, buyer)
                &&& after == self.transferred(file, buyer)
                &&& book_after == transfer_settlement(book, self.config, info, buyer)
            },
        }
    }
}

/// What a command does when its origin is not of the kind it accepts: it
/// fails with `BadOrigin`.
pub open spec fn refused_for_origin(res: Result<Vec<Event>, DispatchError>) -> bool {
    res == Err::<Vec<Event>, DispatchError>(DispatchError::BadOrigin)
}

/// No split by percentage loses any of a fee: for uploads, downloads and
/// ownership transfers alike, the share that the percentage gives and the
/// remainder add up to the fee. Where a share is halved, the two halves
/// fall short of it by at most one unit.
pub proof fn lemma_fee_splits_are_additive(config: Config, total_fee: Balance)
    ensures
        upload_servicer_share(config, total_fee) + (total_fee - upload_servicer_share(
            config,
            total_fee,
        )) == total_fee,
        upload_servicer_share(config, total_fee) <= total_fee,
        download_council_part(config, total_fee) + (total_fee - download_council_part(
            config,
            total_fee,
        )) == total_fee,
        download_council_part(config, total_fee) <= total_fee,
        royalty_part(config, total_fee) + (total_fee - royalty_part(config, total_fee))
            == total_fee,
        royalty_part(config, total_fee) <= total_fee,
        2 * (download_council_part(config, total_fee) / 2) <= download_council_part(
            config,
            total_fee,
        ) <= 2 * (download_council_part(config, total_fee) / 2) + 1,
        2 * (royalty_part(config, total_fee) / 2) <= royalty_part(config, total_fee) <= 2 * (
        royalty_part(config, total_fee) / 2) + 1,
{
    crate::shares::lemma_percent_of_is_bounded(config.servicer_upload_fee_distribution, total_fee);
    crate::shares::lemma_percent_of_is_bounded(
        config.big_brother_download_fee_distribution,
        total_fee,
    );
    crate::shares::lemma_percent_of_is_bounded(config.royalty_fee_distribution, total_fee);
}

/// The file marketplace.
pub struct Pallet {
    config: Config,
    files: BTreeMap<AccountId, FileInformation>,
    hashes: BTreeMap<FileHash, AccountId>,
}

impl View for Pallet {
    type V = FilesState;

    closed spec fn view(&self) -> FilesState {
        FilesState { config: self.config, files: self.files@, hashes: self.hashes@ }
    }
}

impl Pallet {
    /// The marketplace's invariant: the hash index is exact.
    pub open spec fn wf(&self) -> bool {
        self@.index_is_exact()
    }

    /// A marketplace without files.
    pub fn new(config: Config) -> (pallet: Pallet)
        ensures
            pallet.wf(),
            pallet@ == (FilesState { config, files: Map::empty(), hashes: Map::empty() }),
    {
        Pallet { config, files: BTreeMap::new(), hashes: BTreeMap::new() }
    }

    /// The marketplace's parameters.
    pub fn config(&self) -> (config: Config)
        ensures
            config == self@.config,
    {
        self.config
    }

    /// The record of `file`, if it is registered.
    pub fn files(&self, file: AccountId) -> (info: Option<FileInformation>)
        ensures
            info == (if self@.files.contains_key(file) {
                Some(self@.files[file])
            } else {
                None
            }),
    {
        match self.files.get(&file) {
            Some(info) => Some(*info),
            None => None,
        }
    }

    /// The identifier of the file registered with `hash`, if there is one.
    pub fn hashes(&self, hash: FileHash) -> (file: Option<AccountId>)
        ensures
            file == (if self@.hashes.contains_key(hash) {
                Some(self@.hashes[hash])
            } else {
                None
            }),
    {
        match self.hashes.get(&hash) {
            Some(file) => Some(*file),
            None => None,
        }
    }

    /// Removes `file` and its hash from the marketplace. Fails with
    /// `FileNotFound`, changing nothing, when the file is not registered.
    pub fn delete_file(&mut self, file: AccountId) -> (res: Result<Vec<Event>, DispatchError>)
        requires
            old(self).wf(),
        ensures
            final(self).wf(),
            match res {
                Ok(events) => {
                    &&& old(self)@.files.contains_key(file)
                    &&& final(self)@ == old(self)@.deleted(file)
                    &&& events@ == seq![Event::InsufficientAmountForKeepingFile { file }]
                },
                Err(error) => {
                    &&& !old(self)@.files.contains_key(file)
                    &&& error == DispatchError::Files(Error::FileNotFound)
                    &&& final(self)@ == old(self)@
                },
            },
    {
        let info = match self.files.get(&file) {
            Some(info) => *info,
            None => {
                return Err(DispatchError::Files(Error::FileNotFound));
            },
        };
        self.files.remove(&file);
        self.hashes.remove(&info.hash);
        let mut events: Vec<Event> = Vec::new();
        events.push(Event::InsufficientAmountForKeepingFile { file });
        assert(self@ =~= old(self)@.deleted(file));
        assert(events@ =~= seq![Event::InsufficientAmountForKeepingFile { file }]);
        Ok(events)
    }

    /// Collects the storage fee of `file` for one period from the file's
    /// own account and shares it between the council representative and
    /// the servicer. A file whose account cannot pay is deleted instead:
    /// that is the defined outcome, not a failure. Fails with
    /// `FileNotFound`, changing nothing, when the file is not registered.
    pub fn distribute_storage_fee<S: FeeFromBytes>(
        &mut self,
        ledger: &mut Ledger,
        file: AccountId,
    ) -> (res: Result<Vec<Event>, DispatchError>)
        requires
            old(self).wf(),
            old(ledger).wf(),
        ensures
            final(self).wf(),
            final(ledger).wf(),
            old(self)@.storage_fee_outcome(
                old(ledger)@,
                file,
                S::fee(old(self)@.files[file].size),
                final(self)@,
                final(ledger)@,
                res,
            ),
    {
        let info = match self.files.get(&file) {
            Some(info) => *info,
            None => {
                return Err(DispatchError::Files(Error::FileNotFound));
            },
        };
        let total_fee: Balance = S::bytes_to_fee(info.size);
        let half_fee: Balance = half_of(total_fee);
        if ledger.withdraw(file, total_fee).is_err() {
            return self.delete_file(file);
        }
        let mut events: Vec<Event> = Vec::new();
        events.push(Event::StorageFeePaid { file, amount: total_fee });
        ledger.deposit_creating(info.big_brother, half_fee);
        events.push(Event::StorageFeeDistributed { file, to: info.big_brother, amount: half_fee });
        ledger.deposit_creating(info.servicer, half_fee);
        events.push(Event::StorageFeeDistributed { file, to: info.servicer, amount: half_fee });
        assert(events@ =~= storage_events(file, info, total_fee));
        Ok(events)
    }

    /// Passes `file` to `beneficiary` against the file's transfer fee. The
    /// fee is taken from the beneficiary before anything else happens; its
    /// royalty part is halved between the uploader and the council
    /// representative and the rest goes to the previous owner. Fails,
    /// changing nothing, with `FileNotFound` when the file is not
    /// registered and with the ledger's error when the beneficiary cannot
    /// pay.
    pub fn ownership_transfer(
        &mut self,
        ledger: &mut Ledger,
        file: AccountId,
        beneficiary: AccountId,
    ) -> (res: Result<Vec<Event>, DispatchError>)
        requires
            old(self).wf(),
            old(ledger).wf(),
        ensures
            final(self).wf(),
            final(ledger).wf(),
            old(self)@.transfer_outcome(
                old(ledger)@,
                file,
                beneficiary,
                final(self)@,
                final(ledger)@,
                res,
            ),
    {
        let info = match self.files.get(&file) {
            Some(info) => *info,
            None => {
                return Err(DispatchError::Files(Error::FileNotFound));
            },
        };
        let (royalty_part_amount, owner_part_amount) = split_by_percent(
            self.config.royalty_fee_distribution,
            info.transfer_fee,
        );
        let half_royalty: Balance = half_of(royalty_part_amount);
        match ledger.withdraw(beneficiary, info.transfer_fee) {
            Ok(_) => {},
            Err(error) => {
                return Err(DispatchError::Ledger(error));
            },
        }
        let mut events: Vec<Event> = Vec::new();
        events.push(
            Event::OwnershipTransferFeePaid { by: beneficiary, amount: info.transfer_fee, file },
        );
        ledger.deposit_creating(info.uploader, half_royalty);
        events.push(
            Event::OwnershipTransferFeeDistributed { to: info.uploader, amount: half_royalty, file },
        );
        ledger.deposit_creating(info.big_brother, half_royalty);
        events.push(
            Event::OwnershipTransferFeeDistributed {
                to: info.big_brother,
                amount: half_royalty,
                file,
            },
        );
        ledger.deposit_creating(info.owner, owner_part_amount);
        events.push(
            Event::OwnershipTransferFeeDistributed {
                to: info.owner,
                amount: owner_part_amount,
                file,
            },
        );
        self.files.insert(file, FileInformation { owner: beneficiary, ..info });
        events.push(Event::FileOwnershipTransferred { from: info.owner, to: beneficiary, file });
        assert(self@ =~= old(self)@.transferred(file, beneficiary));
        assert(events@ =~= transfer_events(old(self)@.config, file, info, beneficiary));
        Ok(events)
    }

    /// Registers `file` with `args` and charges the upload fee for its
    /// size. The fee is taken from the uploader before anything else
    /// happens; the servicer receives its percentage of it and the council
    /// representative the remainder. The uploader becomes the owner.
    /// Fails, changing nothing, with `FileAlreadyExist` when the identifier
    /// or the hash is registered, with `OwnershipTransferFeeMustNotZero`
    /// when the transfer fee is zero, and with the ledger's error when the
    /// uploader cannot pay.
    pub fn upload_file<U: FeeFromBytes>(
        &mut self,
        ledger: &mut Ledger,
        file: AccountId,
        args: FileInformationArgs,
    ) -> (res: Result<Vec<Event>, DispatchError>)
        requires
            old(self).wf(),
            old(ledger).wf(),
        ensures
            final(self).wf(),
            final(ledger).wf(),
            old(self)@.upload_outcome(
                old(ledger)@,
                file,
                args,
                U::fee(args.size),
                final(self)@,
                final(ledger)@,
                res,
            ),
    {
        if self.files.contains_key(&file) {
            return Err(DispatchError::Files(Error::FileAlreadyExist));
        }
        if self.hashes.contains_key(&args.hash) {
            return Err(DispatchError::Files(Error::FileAlreadyExist));
        }
        if args.transfer_fee == 0 {
            return Err(DispatchError::Files(Error::OwnershipTransferFeeMustNotZero));
        }
        let file_info = FileInformation {
            hash: args.hash,
            uploader: args.uploader,
            big_brother: args.big_brother,
            servicer: args.servicer,
            owner: args.uploader,
            transfer_fee: args.transfer_fee,
            size: args.size,
            free_for_all: args.free_for_all,
        };
        let total_fee: Balance = U::bytes_to_fee(args.size);
        let (servicer_part_amount, bb_part_amount) = split_by_percent(
            self.config.servicer_upload_fee_distribution,
            total_fee,
        );
        match ledger.withdraw(args.uploader, total_fee) {
            Ok(_) => {},
            Err(error) => {
                return Err(DispatchError::Ledger(error));
            },
        }
        self.files.insert(file, file_info);
        self.hashes.insert(args.hash, file);
        let mut events: Vec<Event> = Vec::new();
        events.push(Event::FileUploaded { file, length: args.size });
        events.push(Event::UploadFeePaid { by: args.uploader, amount: total_fee, file });
        ledger.deposit_creating(args.big_brother, bb_part_amount);
        events.push(
            Event::UploadFeeDistributed { to: args.big_brother, amount: bb_part_amount, file },
        );
        ledger.deposit_creating(args.servicer, servicer_part_amount);
        events.push(
            Event::UploadFeeDistributed { to: args.servicer, amount: servicer_part_amount, file },
        );
        assert(self@ =~= old(self)@.uploaded(file, args));
        assert(events@ =~= upload_events(old(self)@.config, file, args, total_fee));
        Ok(events)
    }

    /// Charges `downloader` the download fee for the size of `file`, unless
    /// the file is free for all, in which case nothing happens. The fee is
    /// taken from the downloader before anything else happens; its council
    /// part is halved between the council representative and the servicer
    /// and the rest goes to the owner. Fails, changing nothing, with
    /// `FileNotFound` when the file is not registered and with the ledger's
    /// error when the downloader cannot pay.
    pub fn download_file<D: FeeFromBytes>(
        &self,
        ledger: &mut Ledger,
        file: AccountId,
        downloader: AccountId,
    ) -> (res: Result<Vec<Event>, DispatchError>)
        requires
            self.wf(),
            old(ledger).wf(),
        ensures
            final(ledger).wf(),
            self@.download_outcome(
                old(ledger)@,
                file,
                downloader,
                D::fee(self@.files[file].size),
                final(ledger)@,
                res,
            ),
    {
        let info = match self.files.get(&file) {
            Some(info) => *info,
            None => {
                return Err(DispatchError::Files(Error::FileNotFound));
            },
        };
        let mut events: Vec<Event> = Vec::new();
        if info.free_for_all {
            return Ok(events);
        }
        let total_fee: Balance = D::bytes_to_fee(info.size);
        let (bb_part_amount, owner_part_amount) = split_by_percent(
            self.config.big_brother_download_fee_distribution,
            total_fee,
        );
        let half_bb_fee: Balance = half_of(bb_part_amount);
        match ledger.withdraw(downloader, total_fee) {
            Ok(_) => {},
            Err(error) => {
                return Err(DispatchError::Ledger(error));
            },
        }
        events.push(Event::DownloadFeePaid { by: downloader, amount: total_fee, file });
        ledger.deposit_creating(info.owner, owner_part_amount);
        events.push(
            Event::DownloadFeeDistributed { to: info.owner, amount: owner_part_amount, file },
        );
        ledger.deposit_creating(info.big_brother, half_bb_fee);
        events.push(
            Event::DownloadFeeDistributed { to: info.big_brother, amount: half_bb_fee, file },
        );
        ledger.deposit_creating(info.servicer, half_bb_fee);
        events.push(Event::DownloadFeeDistributed { to: info.servicer, amount: half_bb_fee, file });
        assert(events@ =~= download_events(self@.config, file, info, downloader, total_fee));
        Ok(events)
    }

    /// Servicer: upload a file. Any signed origin and root may call;
    /// otherwise as [`Pallet::upload_file`].
    pub fn servicer_upload<U: FeeFromBytes>(
        &mut self,
        ledger: &mut Ledger,
        origin: Origin,
        file: AccountId,
        args: FileInformationArgs,
    ) -> (res: Result<Vec<Event>, DispatchError>)
        requires
            old(self).wf(),
            old(ledger).wf(),
        ensures
            final(self).wf(),
            final(ledger).wf(),
            origin is Unsigned ==> refused_for_origin(res) && final(self)@ == old(self)@
                && final(ledger)@ == old(ledger)@,
            !(origin is Unsigned) ==> old(self)@.upload_outcome(
                old(ledger)@,
                file,
                args,
                U::fee(args.size),
                final(self)@,
                final(ledger)@,
                res,
            ),
    {
        match ensure_signed_or_root(origin) {
            Ok(_) => self.upload_file::<U>(ledger, file, args),
            Err(error) => Err(error),
        }
    }

    /// Servicer: download a file on behalf of `downloader`. Any signed
    /// origin and root may call; otherwise as [`Pallet::download_file`].
    pub fn servicer_download<D: FeeFromBytes>(
        &self,
        ledger: &mut Ledger,
        origin: Origin,
        file: AccountId,
        downloader: AccountId,
    ) -> (res: Result<Vec<Event>, DispatchError>)
        requires
            self.wf(),
            old(ledger).wf(),
        ensures
            final(ledger).wf(),
            origin is Unsigned ==> refused_for_origin(res) && final(ledger)@ == old(ledger)@,
            !(origin is Unsigned) ==> self@.download_outcome(
                old(ledger)@,
                file,
                downloader,
                D::fee(self@.files[file].size),
                final(ledger)@,
                res,
            ),
    {
        match ensure_signed_or_root(origin) {
            Ok(_) => self.download_file::<D>(ledger, file, downloader),
            Err(error) => Err(error),
        }
    }

    /// Servicer: take the storage fee of a file for one period. Any signed
    /// origin and root may call; otherwise as
    /// [`Pallet::distribute_storage_fee`].
    pub fn servicer_take_storage_fee<S: FeeFromBytes>(
        &mut self,
        ledger: &mut Ledger,
        origin: Origin,
        file: AccountId,
    ) -> (res: Result<Vec<Event>, DispatchError>)
        requires
            old(self).wf(),
            old(ledger).wf(),
        ensures
            final(self).wf(),
            final(ledger).wf(),
            origin is Unsigned ==> refused_for_origin(res) && final(self)@ == old(self)@
                && final(ledger)@ == old(ledger)@,
            !(origin is Unsigned) ==> old(self)@.storage_fee_outcome(
                old(ledger)@,
                file,
                S::fee(old(self)@.files[file].size),
                final(self)@,
                final(ledger)@,
                res,
            ),
    {
        match ensure_signed_or_root(origin) {
            Ok(_) => self.distribute_storage_fee::<S>(ledger, file),
            Err(error) => Err(error),
        }
    }

    /// Any signed account: buy a file. The signer becomes the owner;
    /// otherwise as [`Pallet::ownership_transfer`].
    pub fn any_buy_file(&mut self, ledger: &mut Ledger, origin: Origin, file: AccountId) -> (res:
        Result<Vec<Event>, DispatchError>)
        requires
            old(self).wf(),
            old(ledger).wf(),
        ensures
            final(self).wf(),
            final(ledger).wf(),
            match origin {
                Origin::Signed(buyer) => old(self)@.transfer_outcome(
                    old(ledger)@,
                    file,
                    buyer,
                    final(self)@,
                    final(ledger)@,
                    res,
                ),
                _ => refused_for_origin(res) && final(self)@ == old(self)@ && final(ledger)@
                    == old(ledger)@,
            },
    {
        match ensure_signed(origin) {
            Ok(beneficiary) => self.ownership_transfer(ledger, file, beneficiary),
            Err(error) => Err(error),
        }
    }
}

} // verus!
