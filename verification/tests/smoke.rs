// Smoke tests for the source readers, fed from the live system where the
// reader's counters are plain OS files, and from constructed counter values
// where the underlying device may be absent.

use procfs::process::Process;
use procfs::{CpuInfo, Current, CurrentSI, KernelStats};

use smaragdine::clock::now_ms;
use smaragdine::cpu::{read_cpus, sample_cpus, CpuTicks};
use smaragdine::model::Data;
use smaragdine::nvml::{nvml_reading, sample_nvml};
use smaragdine::rapl::{read_rapl, read_socket, sample_rapl};
use smaragdine::task::{read_tasks, sample_tasks, TaskStat};

#[test]
// make sure sample_cpus returns the right data type
fn jiffies_smoke_test() {
    let start = now_ms();
    if let Ok(kstats) = KernelStats::current() {
        let cpuinfo = CpuInfo::current().unwrap();
        let ticks: Vec<CpuTicks> = kstats
            .cpu_time
            .iter()
            .map(|ct| CpuTicks {
                user: ct.user,
                nice: ct.nice,
                system: ct.system,
                idle: ct.idle,
                iowait: ct.iowait,
                irq: ct.irq,
                softirq: ct.softirq,
                steal: ct.steal,
                guest: ct.guest,
                guest_nice: ct.guest_nice,
            })
            .collect();
        let sockets: Vec<u32> = (0..ticks.len())
            .map(|i| cpuinfo.physical_id(i).unwrap_or(0))
            .collect();
        let readings = read_cpus(&ticks, &sockets);
        if let Ok(sample) = sample_cpus(now_ms(), Ok(readings)) {
            if let Some(Data::Cpu(sample)) = sample.data {
                assert!(sample.timestamp <= now_ms());
                assert!(sample.timestamp >= start);
                assert_eq!(sample.reading.len(), cpuinfo.num_cores());
            } else {
                panic!("sampling cpus failed; data other than CpuSample returned");
            };
        } else {
            panic!("sampling cpus failed; /proc/stat couldn't be read");
        };
    } else {
        panic!("sampling cpus failed; /proc/stat couldn't be read");
    };

    let start = now_ms();
    let me = Process::myself().unwrap();
    let stats: Vec<TaskStat> = me
        .tasks()
        .unwrap()
        .flatten()
        .filter_map(|t| t.stat().ok())
        .map(|st| TaskStat {
            pid: st.pid,
            processor: st.processor,
            utime: st.utime,
            stime: st.stime,
        })
        .collect();
    let readings = read_tasks(&stats);
    if let Ok(sample) = sample_tasks(me.pid, now_ms(), Ok(readings)) {
        if let Some(Data::Process(sample)) = sample.data {
            assert!(sample.timestamp <= now_ms());
            assert!(sample.timestamp >= start);
            assert_eq!(sample.reading.len(), me.tasks().unwrap().count());
        } else {
            panic!("sampling tasks failed; data other than ProcessSample returned");
        };
    } else {
        panic!("sampling tasks failed; /proc/[pid]/task couldn't be read");
    };
}

#[test]
// make sure the powercap listing is filtered to sockets and all the values read
fn rapl_smoke_test() {
    let start = now_ms();
    let listing = vec![
        "intel-rapl".to_string(),
        "intel-rapl:0".to_string(),
        "intel-rapl:0:0".to_string(),
        "intel-rapl:1".to_string(),
    ];
    let sockets = read_rapl(Ok(listing)).unwrap();
    assert_eq!(sockets, vec![0, 1]);
    let mut readings = Vec::new();
    for socket in sockets {
        readings.push(read_socket(socket, Some("123456\n"), Some("7890\n")).unwrap());
    }
    assert_eq!(readings.len(), 2);
    assert_eq!(readings[0].package, Some(123456));
    assert_eq!(readings[0].dram, Some(7890));
    if let Ok(sample) = sample_rapl(now_ms(), Ok(readings)) {
        if let Some(Data::Rapl(sample)) = sample.data {
            assert!(sample.timestamp <= now_ms());
            assert!(sample.timestamp >= start);
        } else {
            panic!("sampling rapl failed; data other than RaplSample returned");
        };
    } else {
        panic!("sampling rapl failed; /sys/class/powercap couldn't be read");
    };
}

#[test]
// make sure the device readings assemble into the right data type
fn nvml_smoke_test() {
    let start = now_ms();
    let readings = vec![nvml_reading(0, "0000:00:1e.0".to_string(), Some(25000))];
    if let Ok(sample) = sample_nvml(now_ms(), Ok(readings)) {
        if let Some(Data::Nvml(sample)) = sample.data {
            assert!(sample.timestamp <= now_ms());
            assert!(sample.timestamp >= start);
        } else {
            panic!("sampling nvml failed; data other than NvmlSample returned");
        };
    } else {
        panic!("sampling nvml failed; libnvidia-ml.so could not be found");
    };
}
